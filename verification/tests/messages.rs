use global_overlay::error::{decimal_text, HotkeyError};
use global_overlay::linux_hotkey::GrabError;
use global_overlay::startup::failure_report;
use global_overlay::windows_hotkey::registration_report;

#[test]
fn numbers_are_written_in_decimal() {
    for n in [0, 1, 9, 10, 99, 100, 12345, -1, -10, -9878, i32::MAX, i32::MIN] {
        assert_eq!(decimal_text(n), format!("{}", n));
    }
}

#[test]
fn hotkey_errors_have_their_texts() {
    assert_eq!(
        HotkeyError::InstallEventHandler(-50).message(),
        "InstallEventHandler failed with status -50"
    );
    assert_eq!(
        HotkeyError::RegisterEventHotKey(-9878).message(),
        "RegisterEventHotKey failed with status -9878"
    );
    assert_eq!(
        HotkeyError::PureWayland.message(),
        "Global overlay hotkey is not supported under pure Wayland. \
         Run Zed under XWayland (set DISPLAY) to enable it."
    );
}

#[test]
fn grab_errors_have_their_texts() {
    let cause = || String::from("cause");
    assert_eq!(
        GrabError::Connect(cause()).message(),
        "Failed to connect to X11 display: cause"
    );
    assert_eq!(GrabError::NotSent(cause()).message(), "cause");
    assert_eq!(GrabError::KeyboardMapping(cause()).message(), "GetKeyboardMapping failed: cause");
    assert_eq!(GrabError::NoTabKeycode.message(), "Could not find keycode for XK_Tab");
    assert_eq!(GrabError::Grab(cause()).message(), "XGrabKey failed: cause");
    assert_eq!(
        GrabError::GrabExtraModifier(cause()).message(),
        "XGrabKey (extra mod) failed: cause"
    );
    assert_eq!(
        GrabError::WindowAttributes(cause()).message(),
        "ChangeWindowAttributes failed: cause"
    );
    assert_eq!(GrabError::Flush(cause()).message(), "X11 flush failed: cause");
    assert_eq!(GrabError::WaitForEvent(cause()).message(), "X11 wait_for_event failed: cause");
}

#[test]
fn failed_start_is_reported() {
    assert_eq!(
        failure_report(&HotkeyError::PureWayland),
        "Failed to register global overlay hotkey: \
         Global overlay hotkey is not supported under pure Wayland. \
         Run Zed under XWayland (set DISPLAY) to enable it."
    );
    assert_eq!(
        failure_report(&HotkeyError::RegisterEventHotKey(-9878)),
        "Failed to register global overlay hotkey: RegisterEventHotKey failed with status -9878"
    );
}

#[test]
fn failed_grab_loop_is_reported() {
    assert_eq!(
        GrabError::Connect(String::from("cause")).report(),
        "Global overlay hotkey X11 grab loop failed: Failed to connect to X11 display: cause"
    );
    assert_eq!(
        GrabError::NotSent(String::from("cause")).report(),
        "Global overlay hotkey X11 grab loop failed: cause"
    );
}

#[test]
fn refused_windows_hotkey_is_reported() {
    assert_eq!(registration_report("cause"), "RegisterHotKey failed: cause");
}
