//! The foreground controller, its user-facing command, and the decimal
//! rendering the command's messages rely on.

use window_util::commands;
use window_util::fmt::decimal_string;
use window_util::window::Window;

#[test]
fn raising_a_valid_handle_succeeds() {
    assert_eq!(Window::set_foreground_window(42, true), Ok(()));
}

#[test]
fn raising_an_invalid_handle_returns_an_error_without_panicking() {
    let r = Window::set_foreground_window(-1, false);
    assert_eq!(r, Err("Failed to set foreground window".to_string()));
}

#[test]
fn command_reports_success_with_the_handle() {
    let r = commands::set_foreground_window(7, true);
    assert_eq!(r, Ok("Successfully set window 7 to the foreground.".to_string()));
}

#[test]
fn command_reports_failure_with_the_handle_and_reason() {
    let r = commands::set_foreground_window(-120, false);
    assert_eq!(
        r,
        Err(
            "Failed to set window -120 to the foreground: Failed to set foreground window"
                .to_string(),
        ),
    );
}

#[test]
fn decimal_rendering_is_exact() {
    assert_eq!(decimal_string(0), "0");
    assert_eq!(decimal_string(9), "9");
    assert_eq!(decimal_string(10), "10");
    assert_eq!(decimal_string(120), "120");
    assert_eq!(decimal_string(-1), "-1");
    assert_eq!(decimal_string(isize::MAX), isize::MAX.to_string());
    assert_eq!(decimal_string(isize::MIN), isize::MIN.to_string());
}
