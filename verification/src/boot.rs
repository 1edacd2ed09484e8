//! The plans of the shell: what to do at startup, and what to do when the
//! swap from splash window to main window is requested.

use vstd::prelude::*;
use crate::step::{Notice, Step};
use crate::window::WindowId;

verus! {

/// How long initialization takes, in seconds.
pub const INIT_DELAY_SECS: u64 = 2;

/// Why the shell could not start.
#[derive(Clone, Copy, Debug, PartialEq, Eq, Structural)]
pub enum StartupError {
    /// The toolkit has no window under the label of this one.
    WindowNotFound(WindowId),
}

impl StartupError {
    /// The window that the error is about.
    pub open spec fn spec_window(self) -> WindowId {
        match self {
            StartupError::WindowNotFound(id) => id,
        }
    }

    /// The window that the error is about.
    pub fn window(&self) -> (id: WindowId)
        ensures
            id == self.spec_window(),
    {
        match self {
            StartupError::WindowNotFound(id) => *id,
        }
    }

    /// The console line that reports the error.
    pub fn notice(&self) -> (notice: Notice)
        ensures
            notice == Notice::spec_not_found(self.spec_window()),
    {
        Notice::not_found(self.window())
    }
}

/// The steps of the initialization task: announce, wait out the delay, then
/// close the splash window and show the main window, announcing each.
pub open spec fn spec_initialization_steps() -> Seq<Step> {
    seq![
        Step::Log(Notice::Initializing),
        Step::Pause { secs: INIT_DELAY_SECS },
        Step::Log(Notice::DoneInitializing),
        Step::Close(WindowId::Splash),
        Step::Log(Notice::SplashClosed),
        Step::Show(WindowId::Main),
        Step::Log(Notice::MainShown),
    ]
}

/// The part of a requested swap that deals with the splash window: close it
/// where it was found, say so where it was not.
pub open spec fn spec_splash_steps(found: bool) -> Seq<Step> {
    if found {
        seq![Step::Log(Notice::ClosingSplash), Step::Close(WindowId::Splash)]
    } else {
        seq![Step::Log(Notice::SplashNotFound)]
    }
}

/// The part of a requested swap that deals with the main window: show it
/// where it was found, say so where it was not.
pub open spec fn spec_main_steps(found: bool) -> Seq<Step> {
    if found {
        seq![Step::Log(Notice::ShowingMain), Step::Show(WindowId::Main)]
    } else {
        seq![Step::Log(Notice::MainNotFound)]
    }
}

/// The steps of a requested swap: the splash window's part, then the main
/// window's part.
pub open spec fn spec_close_splashscreen(splash_found: bool, main_found: bool) -> Seq<Step> {
    spec_splash_steps(splash_found) + spec_main_steps(main_found)
}

/// The steps of the initialization task, which the host performs once, off
/// the event loop.
pub fn initialization_steps() -> (steps: Vec<Step>)
    ensures
        steps@ == spec_initialization_steps(),
{
    let mut steps: Vec<Step> = Vec::new();
    steps.push(Step::Log(Notice::Initializing));
    steps.push(Step::Pause { secs: INIT_DELAY_SECS });
    steps.push(Step::Log(Notice::DoneInitializing));
    steps.push(Step::Close(WindowId::Splash));
    steps.push(Step::Log(Notice::SplashClosed));
    steps.push(Step::Show(WindowId::Main));
    steps.push(Step::Log(Notice::MainShown));
    assert(steps@ =~= spec_initialization_steps());
    steps
}

/// Decides what happens at startup from the outcome of the two lookups.
///
/// With both windows found the host is handed the initialization task to
/// schedule. A missing window is a startup error; where both are missing the
/// error names the splash window, which is looked up first.
pub fn startup(splash_found: bool, main_found: bool) -> (plan: Result<Vec<Step>, StartupError>)
    ensures
        plan is Ok <==> splash_found && main_found,
        plan matches Ok(steps) ==> steps@ == spec_initialization_steps(),
        plan matches Err(e) ==> e == StartupError::WindowNotFound(
            if splash_found {
                WindowId::Main
            } else {
                WindowId::Splash
            },
        ),
{
    if !splash_found {
        Err(StartupError::WindowNotFound(WindowId::Splash))
    } else if !main_found {
        Err(StartupError::WindowNotFound(WindowId::Main))
    } else {
        Ok(initialization_steps())
    }
}

/// Decides what a request to swap the windows does, from the outcome of the
/// two lookups. A window that was not found is reported and the other is
/// still dealt with; the request never fails.
pub fn close_splashscreen(splash_found: bool, main_found: bool) -> (steps: Vec<Step>)
    ensures
        steps@ == spec_close_splashscreen(splash_found, main_found),
{
    let mut steps: Vec<Step> = Vec::new();
    if splash_found {
        steps.push(Step::Log(Notice::ClosingSplash));
        steps.push(Step::Close(WindowId::Splash));
    } else {
        steps.push(Step::Log(Notice::SplashNotFound));
    }
    if main_found {
        steps.push(Step::Log(Notice::ShowingMain));
        steps.push(Step::Show(WindowId::Main));
    } else {
        steps.push(Step::Log(Notice::MainNotFound));
    }
    assert(steps@ =~= spec_close_splashscreen(splash_found, main_found));
    steps
}

} // verus!
