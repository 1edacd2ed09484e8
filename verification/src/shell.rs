//! A model of the two windows as the host toolkit holds them, and of what
//! the steps of a plan do to them.

use vstd::prelude::*;
use crate::step::Step;
use crate::window::{WindowId, WindowState};

verus! {

/// The state of the splash window and of the main window.
#[derive(Clone, Copy, Debug, PartialEq, Eq, Structural)]
pub struct Shell {
    pub splash: WindowState,
    pub main: WindowState,
}

impl Shell {
    /// The state of window `id`.
    pub open spec fn spec_window(self, id: WindowId) -> WindowState {
        match id {
            WindowId::Splash => self.splash,
            WindowId::Main => self.main,
        }
    }

    /// The shell with window `id` in state `state` and the other window as
    /// it is.
    pub open spec fn spec_with_window(self, id: WindowId, state: WindowState) -> Shell {
        match id {
            WindowId::Splash => Shell { splash: state, main: self.main },
            WindowId::Main => Shell { splash: self.splash, main: state },
        }
    }

    /// Whether a lookup of window `id` finds it.
    pub open spec fn spec_finds(self, id: WindowId) -> bool {
        self.spec_window(id).spec_is_open()
    }

    /// The shell after the host has performed `step`. Logging and pausing
    /// leave the windows alone; closing and showing change the one window
    /// they name.
    pub open spec fn after_step(self, step: Step) -> Shell {
        match step {
            Step::Log(_) => self,
            Step::Pause { secs } => self,
            Step::Close(id) => self.spec_with_window(id, self.spec_window(id).spec_closed()),
            Step::Show(id) => self.spec_with_window(id, self.spec_window(id).spec_shown()),
        }
    }

    /// The shell after the host has performed `steps` in order.
    pub open spec fn after(self, steps: Seq<Step>) -> Shell
        decreases steps.len(),
    {
        if steps.len() == 0 {
            self
        } else {
            self.after(steps.drop_last()).after_step(steps.last())
        }
    }

    /// A shell with the two windows in the given states.
    pub fn new(splash: WindowState, main: WindowState) -> (shell: Shell)
        ensures
            shell == (Shell { splash, main }),
    {
        Shell { splash, main }
    }

    /// The state of window `id`.
    pub fn window(&self, id: WindowId) -> (state: WindowState)
        ensures
            state == self.spec_window(id),
    {
        match id {
            WindowId::Splash => self.splash,
            WindowId::Main => self.main,
        }
    }

    /// Whether a lookup of window `id` finds it.
    pub fn finds(&self, id: WindowId) -> (found: bool)
        ensures
            found == self.spec_finds(id),
    {
        self.window(id).is_open()
    }

    /// Performs one step on the model.
    pub fn perform(&mut self, step: Step)
        ensures
            *final(self) == old(self).after_step(step),
    {
        match step {
            Step::Log(_) => {},
            Step::Pause { secs: _ } => {},
            Step::Close(id) => {
                let next = self.window(id).closed();
                self.set_window(id, next);
            },
            Step::Show(id) => {
                let next = self.window(id).shown();
                self.set_window(id, next);
            },
        }
    }

    /// Performs the steps of a plan on the model, in order.
    pub fn run(&mut self, steps: &Vec<Step>)
        ensures
            *final(self) == old(self).after(steps@),
    {
        let mut i: usize = 0;
        while i < steps.len()
            invariant
                i <= steps.len(),
                *self == old(self).after(steps@.take(i as int)),
            decreases steps.len() - i,
        {
            proof {
                let upto = steps@.take(i + 1);
                assert(upto.drop_last() =~= steps@.take(i as int));
                assert(upto.last() == steps@[i as int]);
            }
            self.perform(steps[i]);
            i += 1;
        }
        proof {
            assert(steps@.take(i as int) =~= steps@);
        }
    }

    /// Puts window `id` into state `state`.
    fn set_window(&mut self, id: WindowId, state: WindowState)
        ensures
            *final(self) == old(self).spec_with_window(id, state),
    {
        match id {
            WindowId::Splash => {
                self.splash = state;
            },
            WindowId::Main => {
                self.main = state;
            },
        }
    }
}

} // verus!
