//! The two windows of the shell and the states a window can be in.

use vstd::prelude::*;

verus! {

/// One of the two windows that the shell manages.
#[derive(Clone, Copy, Debug, PartialEq, Eq, Structural)]
pub enum WindowId {
    /// The transient window shown while the application starts.
    Splash,
    /// The primary application window.
    Main,
}

impl WindowId {
    /// The label under which the host toolkit knows the window.
    pub open spec fn spec_label(self) -> Seq<char> {
        match self {
            WindowId::Splash => "splashscreen"@,
            WindowId::Main => "main"@,
        }
    }

    /// The label under which the host toolkit knows the window.
    pub fn label(&self) -> (label: &'static str)
        ensures
            label@ == self.spec_label(),
    {
        match self {
            WindowId::Splash => "splashscreen",
            WindowId::Main => "main",
        }
    }
}

/// What the host toolkit knows of one window.
///
/// A window that was closed stays closed: its handle is never used again.
#[derive(Clone, Copy, Debug, PartialEq, Eq, Structural)]
pub enum WindowState {
    /// The toolkit never had a window under this label.
    Missing,
    /// The window exists and is not shown.
    Hidden,
    /// The window exists and is shown.
    Visible,
    /// The window existed and was closed.
    Closed,
}

impl WindowState {
    /// Whether a lookup by label finds the window: it exists and was not
    /// closed.
    pub open spec fn spec_is_open(self) -> bool {
        self is Hidden || self is Visible
    }

    /// Whether a lookup by label finds the window.
    pub fn is_open(&self) -> (open: bool)
        ensures
            open == self.spec_is_open(),
    {
        match self {
            WindowState::Hidden => true,
            WindowState::Visible => true,
            WindowState::Missing => false,
            WindowState::Closed => false,
        }
    }

    /// The state after a request to close the window. An open window becomes
    /// closed; a missing or closed one is left as it is.
    pub open spec fn spec_closed(self) -> WindowState {
        if self.spec_is_open() {
            WindowState::Closed
        } else {
            self
        }
    }

    /// The state after a request to close the window.
    pub fn closed(self) -> (next: WindowState)
        ensures
            next == self.spec_closed(),
    {
        match self {
            WindowState::Hidden => WindowState::Closed,
            WindowState::Visible => WindowState::Closed,
            WindowState::Missing => WindowState::Missing,
            WindowState::Closed => WindowState::Closed,
        }
    }

    /// The state after a request to show the window. A hidden window becomes
    /// visible; a visible, missing or closed one is left as it is.
    pub open spec fn spec_shown(self) -> WindowState {
        if self is Hidden {
            WindowState::Visible
        } else {
            self
        }
    }

    /// The state after a request to show the window.
    pub fn shown(self) -> (next: WindowState)
        ensures
            next == self.spec_shown(),
    {
        match self {
            WindowState::Hidden => WindowState::Visible,
            WindowState::Visible => WindowState::Visible,
            WindowState::Missing => WindowState::Missing,
            WindowState::Closed => WindowState::Closed,
        }
    }
}

} // verus!
