//! What holds of the plans, stated over the model of the two windows.

use vstd::prelude::*;
use crate::boot::{
    spec_close_splashscreen, spec_initialization_steps, spec_main_steps, spec_splash_steps,
    INIT_DELAY_SECS,
};
use crate::shell::Shell;
use crate::step::{happens_once, Notice, Step};
use crate::window::{WindowId, WindowState};

verus! {

/// Whether `steps` holds a pause of `secs` seconds that comes before every
/// step that closes or shows a window.
pub open spec fn pause_comes_first(steps: Seq<Step>, secs: u64) -> bool {
    exists|p: int|
        0 <= p < steps.len() && #[trigger] steps[p] == (Step::Pause { secs }) && forall|i: int|
            0 <= i < steps.len() && (#[trigger] steps[i] is Close || steps[i] is Show) ==> p < i
}

/// Performing a plan with one more step at its end is performing the plan
/// and then the step.
pub proof fn lemma_after_push(shell: Shell, steps: Seq<Step>, step: Step)
    ensures
        shell.after(steps.push(step)) == shell.after(steps).after_step(step),
{
    assert(steps.push(step).drop_last() =~= steps);
    assert(steps.push(step).last() == step);
}

/// Performing two plans one after the other is performing the first and,
/// from where it ends, the second.
pub proof fn lemma_after_concat(shell: Shell, first: Seq<Step>, second: Seq<Step>)
    ensures
        shell.after(first + second) == shell.after(first).after(second),
    decreases second.len(),
{
    if second.len() == 0 {
        assert(first + second =~= first);
    } else {
        lemma_after_concat(shell, first, second.drop_last());
        assert((first + second).drop_last() =~= first + second.drop_last());
        assert((first + second).last() == second.last());
    }
}

/// A step leaves every window alone that it does not name. So closing the
/// splash window does not change what a lookup of the main window finds, and
/// the two lookups of a requested swap may both be made before its first
/// step.
pub proof fn lemma_step_leaves_other_window(shell: Shell, step: Step, other: WindowId)
    requires
        step != Step::Close(other),
        step != Step::Show(other),
    ensures
        shell.after_step(step).spec_window(other) == shell.spec_window(other),
{
}

/// The initialization task closes the splash window and shows the main
/// window, whatever state they are in: an open splash window ends closed, a
/// hidden main window ends visible, and the task does each exactly once,
/// after the fixed delay, and touches the windows in no other way.
pub proof fn lemma_initialization_effect(shell: Shell)
    ensures
        shell.after(spec_initialization_steps()) == (Shell {
            splash: shell.splash.spec_closed(),
            main: shell.main.spec_shown(),
        }),
        happens_once(spec_initialization_steps(), Step::Close(WindowId::Splash)),
        happens_once(spec_initialization_steps(), Step::Show(WindowId::Main)),
        pause_comes_first(spec_initialization_steps(), INIT_DELAY_SECS),
{
    let plan = spec_initialization_steps();
    let s0 = Seq::<Step>::empty();
    let s1 = s0.push(plan[0]);
    let s2 = s1.push(plan[1]);
    let s3 = s2.push(plan[2]);
    let s4 = s3.push(plan[3]);
    let s5 = s4.push(plan[4]);
    let s6 = s5.push(plan[5]);
    let s7 = s6.push(plan[6]);
    assert(plan =~= s7);
    lemma_after_push(shell, s0, plan[0]);
    lemma_after_push(shell, s1, plan[1]);
    lemma_after_push(shell, s2, plan[2]);
    lemma_after_push(shell, s3, plan[3]);
    lemma_after_push(shell, s4, plan[4]);
    lemma_after_push(shell, s5, plan[5]);
    lemma_after_push(shell, s6, plan[6]);
    assert(plan[3] == Step::Close(WindowId::Splash));
    assert(plan[5] == Step::Show(WindowId::Main));
    assert(plan[1] == (Step::Pause { secs: INIT_DELAY_SECS }));
}

/// Given both windows exist at startup, the initialization task leaves the
/// splash window closed and the main window visible. It closes the one and
/// shows the other exactly once, and not before the fixed delay is over.
pub proof fn lemma_startup_swaps_windows(shell: Shell)
    requires
        shell.spec_finds(WindowId::Splash),
        shell.spec_finds(WindowId::Main),
    ensures
        shell.after(spec_initialization_steps()).splash == WindowState::Closed,
        shell.after(spec_initialization_steps()).main == WindowState::Visible,
        happens_once(spec_initialization_steps(), Step::Close(WindowId::Splash)),
        happens_once(spec_initialization_steps(), Step::Show(WindowId::Main)),
        pause_comes_first(spec_initialization_steps(), INIT_DELAY_SECS),
{
    lemma_initialization_effect(shell);
}

/// A requested swap, planned from what the lookups find in `shell`, closes
/// the splash window and shows the main window as far as they are there, and
/// changes nothing else.
pub proof fn lemma_request_effect(shell: Shell)
    ensures
        shell.after(
            spec_close_splashscreen(
                shell.spec_finds(WindowId::Splash),
                shell.spec_finds(WindowId::Main),
            ),
        ) == (Shell { splash: shell.splash.spec_closed(), main: shell.main.spec_shown() }),
{
    let splash_found = shell.spec_finds(WindowId::Splash);
    let main_found = shell.spec_finds(WindowId::Main);
    let first = spec_splash_steps(splash_found);
    let second = spec_main_steps(main_found);
    lemma_after_concat(shell, first, second);
    lemma_after_short(shell, first);
    lemma_after_short(shell.after(first), second);
}

/// Requesting the swap while the initialization task still waits closes the
/// splash window and shows the main window. A second request then changes
/// nothing, and neither does the initialization task when its delay is over.
pub proof fn lemma_request_then_again(shell: Shell)
    requires
        shell.spec_finds(WindowId::Splash),
        shell.spec_finds(WindowId::Main),
    ensures
        ({
            let once = shell.after(spec_close_splashscreen(true, true));
            let again = once.after(
                spec_close_splashscreen(
                    once.spec_finds(WindowId::Splash),
                    once.spec_finds(WindowId::Main),
                ),
            );
            &&& once.splash == WindowState::Closed
            &&& once.main == WindowState::Visible
            &&& again == once
            &&& once.after(spec_initialization_steps()) == once
        }),
{
    lemma_request_effect(shell);
    let once = shell.after(spec_close_splashscreen(true, true));
    lemma_request_effect(once);
    lemma_initialization_effect(once);
}

/// In any state of the windows, a request that follows another changes
/// nothing.
pub proof fn lemma_request_is_idempotent(shell: Shell)
    ensures
        ({
            let once = shell.after(
                spec_close_splashscreen(
                    shell.spec_finds(WindowId::Splash),
                    shell.spec_finds(WindowId::Main),
                ),
            );
            once.after(
                spec_close_splashscreen(
                    once.spec_finds(WindowId::Splash),
                    once.spec_finds(WindowId::Main),
                ),
            ) == once
        }),
{
    lemma_request_effect(shell);
    let once = shell.after(
        spec_close_splashscreen(
            shell.spec_finds(WindowId::Splash),
            shell.spec_finds(WindowId::Main),
        ),
    );
    lemma_request_effect(once);
}

/// With no splash window, a requested swap first says so, closes nothing,
/// and goes on to the main window as if the splash window had been there:
/// it shows it, once, where it was found.
pub proof fn lemma_request_without_splash(main_found: bool)
    ensures
        ({
            let plan = spec_close_splashscreen(false, main_found);
            &&& plan == seq![Step::Log(Notice::SplashNotFound)] + spec_main_steps(main_found)
            &&& plan[0] == Step::Log(Notice::SplashNotFound)
            &&& forall|i: int| 0 <= i < plan.len() ==> !(#[trigger] plan[i] is Close)
            &&& main_found ==> happens_once(plan, Step::Show(WindowId::Main))
        }),
{
    let plan = spec_close_splashscreen(false, main_found);
    if main_found {
        assert(plan[2] == Step::Show(WindowId::Main));
    }
}

/// With no main window, a requested swap still deals with the splash window
/// first, closing it, once, where it was found; then it says that the main
/// window is missing, and shows nothing.
pub proof fn lemma_request_without_main(splash_found: bool)
    ensures
        ({
            let plan = spec_close_splashscreen(splash_found, false);
            &&& plan == spec_splash_steps(splash_found) + seq![Step::Log(Notice::MainNotFound)]
            &&& plan.last() == Step::Log(Notice::MainNotFound)
            &&& forall|i: int| 0 <= i < plan.len() ==> !(#[trigger] plan[i] is Show)
            &&& splash_found ==> happens_once(plan, Step::Close(WindowId::Splash))
        }),
{
    let plan = spec_close_splashscreen(splash_found, false);
    if splash_found {
        assert(plan[1] == Step::Close(WindowId::Splash));
    }
}

/// What a plan of one or two steps does.
proof fn lemma_after_short(shell: Shell, steps: Seq<Step>)
    requires
        1 <= steps.len() <= 2,
    ensures
        steps.len() == 1 ==> shell.after(steps) == shell.after_step(steps[0]),
        steps.len() == 2 ==> shell.after(steps) == shell.after_step(steps[0]).after_step(steps[1]),
{
    let s0 = Seq::<Step>::empty();
    let s1 = s0.push(steps[0]);
    lemma_after_push(shell, s0, steps[0]);
    if steps.len() == 1 {
        assert(steps =~= s1);
    } else {
        let s2 = s1.push(steps[1]);
        lemma_after_push(shell, s1, steps[1]);
        assert(steps =~= s2);
    }
}

} // verus!
