//! The steps that the shell asks its host to perform.

use vstd::prelude::*;
use crate::window::WindowId;

verus! {

/// A console line that marks a milestone of the shell's life.
#[derive(Clone, Copy, Debug, PartialEq, Eq, Structural)]
pub enum Notice {
    /// Initialization has begun.
    Initializing,
    /// Initialization is over.
    DoneInitializing,
    /// The initialization task has closed the splash window.
    SplashClosed,
    /// The initialization task has shown the main window.
    MainShown,
    /// The splash window was found and is about to be closed on request.
    ClosingSplash,
    /// No splash window was found.
    SplashNotFound,
    /// The main window was found and is about to be shown on request.
    ShowingMain,
    /// No main window was found.
    MainNotFound,
}

impl Notice {
    /// The line as it is written to the console.
    pub open spec fn spec_text(self) -> Seq<char> {
        match self {
            Notice::Initializing => "Initializing..."@,
            Notice::DoneInitializing => "Done initializing."@,
            Notice::SplashClosed => "Splashscreen closed."@,
            Notice::MainShown => "Main window shown."@,
            Notice::ClosingSplash => "Closing splashscreen..."@,
            Notice::SplashNotFound => "Splashscreen window not found."@,
            Notice::ShowingMain => "Showing main window..."@,
            Notice::MainNotFound => "Main window not found."@,
        }
    }

    /// The line as it is written to the console.
    pub fn text(&self) -> (text: &'static str)
        ensures
            text@ == self.spec_text(),
    {
        match self {
            Notice::Initializing => "Initializing...",
            Notice::DoneInitializing => "Done initializing.",
            Notice::SplashClosed => "Splashscreen closed.",
            Notice::MainShown => "Main window shown.",
            Notice::ClosingSplash => "Closing splashscreen...",
            Notice::SplashNotFound => "Splashscreen window not found.",
            Notice::ShowingMain => "Showing main window...",
            Notice::MainNotFound => "Main window not found.",
        }
    }

    /// The notice that reports a lookup of `id` that found nothing.
    pub open spec fn spec_not_found(id: WindowId) -> Notice {
        match id {
            WindowId::Splash => Notice::SplashNotFound,
            WindowId::Main => Notice::MainNotFound,
        }
    }

    /// The notice that reports a lookup of `id` that found nothing.
    pub fn not_found(id: WindowId) -> (notice: Notice)
        ensures
            notice == Self::spec_not_found(id),
    {
        match id {
            WindowId::Splash => Notice::SplashNotFound,
            WindowId::Main => Notice::MainNotFound,
        }
    }
}

/// One thing for the host to do. The host performs the steps of a plan in
/// order, each to its end before the next.
#[derive(Clone, Copy, Debug, PartialEq, Eq, Structural)]
pub enum Step {
    /// Write the notice's text to the console.
    Log(Notice),
    /// Block for the given number of seconds.
    Pause { secs: u64 },
    /// Ask the toolkit to close the window.
    Close(WindowId),
    /// Ask the toolkit to show the window.
    Show(WindowId),
}

/// Whether `step` stands at exactly one place in `steps`.
pub open spec fn happens_once(steps: Seq<Step>, step: Step) -> bool {
    exists|i: int|
        0 <= i < steps.len() && #[trigger] steps[i] == step && forall|j: int|
            0 <= j < steps.len() && #[trigger] steps[j] == step ==> j == i
}

} // verus!
