use futures::channel::mpsc::UnboundedReceiver;
use global_overlay::error::HotkeyError;
use global_overlay::keyboard::XK_TAB;
use global_overlay::linux_hotkey::{
    after_hotkey_press, GlobalHotkey, GrabError, GrabReply, GrabStep, KeyGrab,
    EVENT_MASK_KEY_PRESS, GRAB_MODE_ASYNC, MOD_2, MOD_LOCK, MOD_SHIFT,
};
use global_overlay::startup::init;
use x11rb::protocol::xproto::{EventMask, GrabMode, ModMask};

const ROOT: u32 = 0x1e7;
const TAB: u8 = 23;

fn hotkey() -> (GlobalHotkey, UnboundedReceiver<()>) {
    let startup = init();
    match GlobalHotkey::new(false, true, startup.sender) {
        Ok(hotkey) => (hotkey, startup.receiver),
        Err(_) => panic!("X11 is supported"),
    }
}

fn connected() -> GrabReply {
    GrabReply::Connected { min_keycode: 8, max_keycode: 255, roots: vec![1, ROOT], screen: 1 }
}

fn mapping() -> GrabReply {
    let mut keysyms = vec![0; 248 * 2];
    keysyms[31] = XK_TAB;
    GrabReply::KeyboardMapping { per_keycode: 2, keysyms }
}

fn advance(hotkey: &mut GlobalHotkey, reply: GrabReply) -> Option<bool> {
    assert!(hotkey.accepts(&reply));
    hotkey.advance(reply)
}

fn waiting() -> (GlobalHotkey, UnboundedReceiver<()>) {
    let (mut hotkey, receiver) = hotkey();
    advance(&mut hotkey, connected());
    advance(&mut hotkey, mapping());
    for _ in 0..6 {
        advance(&mut hotkey, GrabReply::Done);
    }
    assert!(matches!(
        hotkey.step(),
        GrabStep::WaitForEvent { root: ROOT, tab_keycode: TAB }
    ));
    (hotkey, receiver)
}

fn failure(hotkey: &GlobalHotkey) -> String {
    match hotkey.step() {
        GrabStep::Finished(Err(error)) => error.message(),
        step => panic!("{:?} is no failure", step),
    }
}

#[test]
fn pure_wayland_is_refused() {
    assert_eq!(
        GlobalHotkey::new(true, false, init().sender).err(),
        Some(HotkeyError::PureWayland)
    );
    for (wayland, display) in [(true, true), (false, true), (false, false)] {
        let hotkey = GlobalHotkey::new(wayland, display, init().sender);
        assert!(matches!(hotkey, Ok(hotkey) if matches!(hotkey.step(), GrabStep::Connect)));
    }
}

#[test]
fn constants_are_those_of_the_protocol() {
    assert_eq!(MOD_SHIFT, u16::from(ModMask::SHIFT));
    assert_eq!(MOD_LOCK, u16::from(ModMask::LOCK));
    assert_eq!(MOD_2, u16::from(ModMask::M2));
    assert_eq!(MOD_SHIFT | MOD_2, u16::from(ModMask::SHIFT | ModMask::M2));
    assert_eq!(MOD_SHIFT | MOD_LOCK, u16::from(ModMask::SHIFT | ModMask::LOCK));
    assert_eq!(
        MOD_SHIFT | MOD_2 | MOD_LOCK,
        u16::from(ModMask::SHIFT | ModMask::M2 | ModMask::LOCK)
    );
    assert_eq!(GRAB_MODE_ASYNC, u8::from(GrabMode::ASYNC));
    assert_eq!(EVENT_MASK_KEY_PRESS, u32::from(EventMask::KEY_PRESS));
}

#[test]
fn whole_keyboard_is_asked_for() {
    let (mut hotkey, _receiver) = hotkey();
    assert_eq!(advance(&mut hotkey, connected()), None);
    assert!(matches!(
        hotkey.step(),
        GrabStep::GetKeyboardMapping { root: ROOT, min_keycode: 8, count: 248 }
    ));
}

#[test]
fn tab_is_grabbed_with_each_modifier_in_turn() {
    let (mut hotkey, _receiver) = hotkey();
    advance(&mut hotkey, connected());
    advance(&mut hotkey, mapping());
    for (expected_nth, modifiers) in [(0, 1), (1, 17), (2, 3), (3, 19)] {
        match hotkey.step() {
            GrabStep::GrabKey { nth, grab } => {
                assert_eq!(*nth, expected_nth);
                assert_eq!(
                    *grab,
                    KeyGrab {
                        owner_events: false,
                        grab_window: ROOT,
                        modifiers,
                        key: TAB,
                        pointer_mode: 1,
                        keyboard_mode: 1,
                    }
                );
            }
            step => panic!("{:?} is no grab", step),
        }
        advance(&mut hotkey, GrabReply::Done);
    }
    assert!(matches!(
        hotkey.step(),
        GrabStep::SelectEvents { root: ROOT, event_mask: 1, tab_keycode: TAB }
    ));
    advance(&mut hotkey, GrabReply::Done);
    assert!(matches!(hotkey.step(), GrabStep::Flush { root: ROOT, tab_keycode: TAB }));
}

#[test]
fn each_press_of_tab_asks_for_one_toggle() {
    let (mut hotkey, mut receiver) = waiting();
    assert_eq!(advance(&mut hotkey, GrabReply::KeyPress { detail: TAB }), Some(true));
    assert_eq!(advance(&mut hotkey, GrabReply::KeyPress { detail: TAB + 1 }), None);
    assert_eq!(advance(&mut hotkey, GrabReply::OtherEvent), None);
    assert_eq!(advance(&mut hotkey, GrabReply::KeyPress { detail: TAB }), Some(true));
    assert!(receiver.try_recv().is_ok());
    assert!(receiver.try_recv().is_ok());
    assert!(receiver.try_recv().is_err());
    assert!(matches!(hotkey.step(), GrabStep::WaitForEvent { .. }));
}

#[test]
fn loop_ends_when_the_receiver_is_gone() {
    let (mut hotkey, receiver) = waiting();
    drop(receiver);
    assert_eq!(advance(&mut hotkey, GrabReply::OtherEvent), None);
    assert!(matches!(hotkey.step(), GrabStep::WaitForEvent { .. }));
    assert_eq!(advance(&mut hotkey, GrabReply::KeyPress { detail: TAB }), Some(false));
    assert!(matches!(hotkey.step(), GrabStep::Finished(Ok(()))));
    assert!(!hotkey.accepts(&GrabReply::OtherEvent));
}

#[test]
fn step_after_a_press_follows_the_outcome() {
    assert!(matches!(
        after_hotkey_press(ROOT, TAB, true),
        GrabStep::WaitForEvent { root: ROOT, tab_keycode: TAB }
    ));
    assert!(matches!(after_hotkey_press(ROOT, TAB, false), GrabStep::Finished(Ok(()))));
}

#[test]
fn keyboard_without_tab_ends_the_loop() {
    let (mut hotkey, _receiver) = hotkey();
    advance(&mut hotkey, connected());
    advance(&mut hotkey, GrabReply::KeyboardMapping { per_keycode: 1, keysyms: vec![0; 248] });
    assert!(matches!(hotkey.step(), GrabStep::Finished(Err(GrabError::NoTabKeycode))));
}

#[test]
fn each_failed_request_has_its_error() {
    let expected = [
        "Failed to connect to X11 display: e",
        "GetKeyboardMapping failed: e",
        "XGrabKey failed: e",
        "XGrabKey (extra mod) failed: e",
        "XGrabKey (extra mod) failed: e",
        "XGrabKey (extra mod) failed: e",
        "ChangeWindowAttributes failed: e",
        "X11 flush failed: e",
        "X11 wait_for_event failed: e",
    ];
    for (after, text) in expected.iter().enumerate() {
        let (mut hotkey, _receiver) = hotkey();
        for request in 0..after {
            let reply = match request {
                0 => connected(),
                1 => mapping(),
                _ => GrabReply::Done,
            };
            advance(&mut hotkey, reply);
        }
        advance(&mut hotkey, GrabReply::Failed(String::from("e")));
        assert_eq!(failure(&hotkey), *text);
    }
}

#[test]
fn unsent_requests_pass_their_error_on() {
    for after in 2..8 {
        let (mut hotkey, _receiver) = hotkey();
        advance(&mut hotkey, connected());
        for request in 2..after {
            advance(&mut hotkey, if request == 2 { mapping() } else { GrabReply::Done });
        }
        advance(&mut hotkey, GrabReply::NotSent(String::from("broken pipe")));
        assert_eq!(failure(&hotkey), "broken pipe");
    }
}

#[test]
fn replies_out_of_place_or_out_of_range_are_not_accepted() {
    let (mut hotkey, _receiver) = hotkey();
    assert!(!hotkey.accepts(&GrabReply::Done));
    assert!(!hotkey.accepts(&GrabReply::NotSent(String::new())));
    let setup = |min_keycode, max_keycode, screen| GrabReply::Connected {
        min_keycode,
        max_keycode,
        roots: vec![ROOT],
        screen,
    };
    assert!(hotkey.accepts(&setup(8, 8, 0)));
    assert!(hotkey.accepts(&setup(1, 255, 0)));
    assert!(!hotkey.accepts(&setup(8, 255, 1)));
    assert!(!hotkey.accepts(&setup(9, 8, 0)));
    assert!(!hotkey.accepts(&setup(0, 255, 0)));
    advance(&mut hotkey, connected());
    assert!(!hotkey.accepts(&GrabReply::KeyboardMapping { per_keycode: 0, keysyms: vec![] }));
    assert!(!hotkey.accepts(&GrabReply::OtherEvent));
}
