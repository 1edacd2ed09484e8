use splash_shell::boot::{close_splashscreen, initialization_steps, startup, StartupError, INIT_DELAY_SECS};
use splash_shell::step::{Notice, Step};
use splash_shell::window::WindowId;

#[test]
fn window_labels_are_the_toolkit_labels() {
    assert_eq!(WindowId::Splash.label(), "splashscreen");
    assert_eq!(WindowId::Main.label(), "main");
    assert_ne!(WindowId::Splash.label(), WindowId::Main.label());
}

#[test]
fn initialization_delay_is_two_seconds() {
    assert_eq!(INIT_DELAY_SECS, 2u64);
    let steps = initialization_steps();
    assert_eq!(steps[1], Step::Pause { secs: 2u64 });
}

#[test]
fn notice_texts_are_the_console_lines() {
    assert_eq!(Notice::Initializing.text(), "Initializing...");
    assert_eq!(Notice::DoneInitializing.text(), "Done initializing.");
    assert_eq!(Notice::SplashClosed.text(), "Splashscreen closed.");
    assert_eq!(Notice::MainShown.text(), "Main window shown.");
    assert_eq!(Notice::ClosingSplash.text(), "Closing splashscreen...");
    assert_eq!(Notice::SplashNotFound.text(), "Splashscreen window not found.");
    assert_eq!(Notice::ShowingMain.text(), "Showing main window...");
    assert_eq!(Notice::MainNotFound.text(), "Main window not found.");
}

#[test]
fn not_found_notice_names_the_window() {
    assert_eq!(Notice::not_found(WindowId::Splash), Notice::SplashNotFound);
    assert_eq!(Notice::not_found(WindowId::Main), Notice::MainNotFound);
}

#[test]
fn initialization_steps_in_order() {
    assert_eq!(
        initialization_steps(),
        vec![
            Step::Log(Notice::Initializing),
            Step::Pause { secs: 2u64 },
            Step::Log(Notice::DoneInitializing),
            Step::Close(WindowId::Splash),
            Step::Log(Notice::SplashClosed),
            Step::Show(WindowId::Main),
            Step::Log(Notice::MainShown),
        ]
    );
}

#[test]
fn startup_with_both_windows_hands_out_the_task() {
    assert_eq!(startup(true, true), Ok(initialization_steps()));
}

#[test]
fn startup_without_splash_is_an_error() {
    assert_eq!(startup(false, true), Err(StartupError::WindowNotFound(WindowId::Splash)));
}

#[test]
fn startup_without_main_is_an_error() {
    assert_eq!(startup(true, false), Err(StartupError::WindowNotFound(WindowId::Main)));
}

#[test]
fn startup_without_any_window_names_the_splash() {
    assert_eq!(startup(false, false), Err(StartupError::WindowNotFound(WindowId::Splash)));
}

#[test]
fn startup_error_reports_its_window() {
    let splash = StartupError::WindowNotFound(WindowId::Splash);
    let main = StartupError::WindowNotFound(WindowId::Main);
    assert_eq!(splash.window(), WindowId::Splash);
    assert_eq!(main.window(), WindowId::Main);
    assert_eq!(splash.notice(), Notice::SplashNotFound);
    assert_eq!(main.notice(), Notice::MainNotFound);
    assert_eq!(splash.notice().text(), "Splashscreen window not found.");
}

#[test]
fn request_with_both_windows() {
    assert_eq!(
        close_splashscreen(true, true),
        vec![
            Step::Log(Notice::ClosingSplash),
            Step::Close(WindowId::Splash),
            Step::Log(Notice::ShowingMain),
            Step::Show(WindowId::Main),
        ]
    );
}

#[test]
fn request_without_splash_still_shows_main() {
    assert_eq!(
        close_splashscreen(false, true),
        vec![
            Step::Log(Notice::SplashNotFound),
            Step::Log(Notice::ShowingMain),
            Step::Show(WindowId::Main),
        ]
    );
}

#[test]
fn request_without_main_still_closes_splash() {
    assert_eq!(
        close_splashscreen(true, false),
        vec![
            Step::Log(Notice::ClosingSplash),
            Step::Close(WindowId::Splash),
            Step::Log(Notice::MainNotFound),
        ]
    );
}

#[test]
fn request_without_any_window_only_logs() {
    assert_eq!(
        close_splashscreen(false, false),
        vec![Step::Log(Notice::SplashNotFound), Step::Log(Notice::MainNotFound)]
    );
}

#[test]
fn task_closes_and_shows_exactly_once_after_the_pause() {
    let steps = initialization_steps();
    let closes: Vec<usize> =
        (0..steps.len()).filter(|&i| steps[i] == Step::Close(WindowId::Splash)).collect();
    let shows: Vec<usize> =
        (0..steps.len()).filter(|&i| steps[i] == Step::Show(WindowId::Main)).collect();
    let pauses: Vec<usize> =
        (0..steps.len()).filter(|&i| matches!(steps[i], Step::Pause { .. })).collect();
    assert_eq!(closes, vec![3usize]);
    assert_eq!(shows, vec![5usize]);
    assert_eq!(pauses, vec![1usize]);
    assert!(!steps.contains(&Step::Close(WindowId::Main)));
    assert!(!steps.contains(&Step::Show(WindowId::Splash)));
}
