use futures::channel::mpsc::UnboundedReceiver;
use global_overlay::startup::init;
use global_overlay::windows_hotkey::{
    after_hotkey_press, GlobalHotkey, PumpReply, PumpStep, MOD_SHIFT, OVERLAY_HOTKEY_ID, VK_TAB,
    WM_HOTKEY,
};

fn hotkey() -> (GlobalHotkey, UnboundedReceiver<()>) {
    let startup = init();
    match GlobalHotkey::new(startup.sender) {
        Ok(hotkey) => (hotkey, startup.receiver),
        Err(_) => panic!("registering happens later"),
    }
}

fn advance(hotkey: &mut GlobalHotkey, reply: PumpReply) -> Option<bool> {
    assert!(hotkey.accepts(reply));
    hotkey.advance(reply)
}

fn message(status: i32, message: u32, w_param: usize) -> PumpReply {
    PumpReply::Message { status, message, w_param }
}

const UNREGISTER: PumpStep = PumpStep::UnregisterHotKey { id: 1 };

#[test]
fn constants_are_those_of_the_system() {
    assert_eq!(MOD_SHIFT, 4);
    assert_eq!(VK_TAB, 9);
    assert_eq!(WM_HOTKEY, 786);
    assert_eq!(OVERLAY_HOTKEY_ID, 1);
}

#[test]
fn shift_tab_is_registered_first() {
    let (hotkey, _receiver) = hotkey();
    assert_eq!(hotkey.step(), PumpStep::RegisterHotKey { id: 1, modifiers: 4, key: 9 });
}

#[test]
fn refused_hotkey_ends_the_pump_at_once() {
    let (mut hotkey, _receiver) = hotkey();
    assert_eq!(advance(&mut hotkey, PumpReply::Registered(false)), None);
    assert_eq!(hotkey.step(), PumpStep::Finished);
}

#[test]
fn hotkey_message_asks_for_a_toggle_and_is_dispatched() {
    let (mut hotkey, mut receiver) = hotkey();
    advance(&mut hotkey, PumpReply::Registered(true));
    assert_eq!(hotkey.step(), PumpStep::GetMessage);
    assert_eq!(advance(&mut hotkey, message(1, WM_HOTKEY, 1)), Some(true));
    assert_eq!(hotkey.step(), PumpStep::DispatchMessage);
    advance(&mut hotkey, PumpReply::Done);
    assert_eq!(hotkey.step(), PumpStep::GetMessage);
    assert!(receiver.try_recv().is_ok());
    assert!(receiver.try_recv().is_err());
}

#[test]
fn other_messages_are_only_dispatched() {
    let (mut hotkey, mut receiver) = hotkey();
    advance(&mut hotkey, PumpReply::Registered(true));
    for reply in [message(1, WM_HOTKEY, 2), message(1, 0x0100, 1), message(7, WM_HOTKEY, 0)] {
        assert_eq!(advance(&mut hotkey, reply), None);
        assert_eq!(hotkey.step(), PumpStep::DispatchMessage);
        advance(&mut hotkey, PumpReply::Done);
    }
    assert!(receiver.try_recv().is_err());
}

#[test]
fn low_half_of_the_parameter_counts() {
    let (mut hotkey, mut receiver) = hotkey();
    advance(&mut hotkey, PumpReply::Registered(true));
    let wide = (0x5_0000_0001u64) as usize;
    assert_eq!(wide as i32, OVERLAY_HOTKEY_ID);
    assert_eq!(advance(&mut hotkey, message(1, WM_HOTKEY, wide)), Some(true));
    assert!(receiver.try_recv().is_ok());
}

#[test]
fn quit_and_failure_give_the_hotkey_up_once() {
    for status in [0, -1] {
        let (mut hotkey, mut receiver) = hotkey();
        advance(&mut hotkey, PumpReply::Registered(true));
        assert_eq!(advance(&mut hotkey, message(status, WM_HOTKEY, 1)), None);
        assert_eq!(hotkey.step(), UNREGISTER);
        advance(&mut hotkey, PumpReply::Done);
        assert_eq!(hotkey.step(), PumpStep::Finished);
        assert!(!hotkey.accepts(PumpReply::Done));
        assert!(receiver.try_recv().is_err());
    }
}

#[test]
fn pump_gives_the_hotkey_up_when_the_receiver_is_gone() {
    let (mut hotkey, receiver) = hotkey();
    drop(receiver);
    advance(&mut hotkey, PumpReply::Registered(true));
    assert_eq!(advance(&mut hotkey, message(1, WM_HOTKEY, 1)), Some(false));
    assert_eq!(hotkey.step(), UNREGISTER);
}

#[test]
fn step_after_a_hotkey_message_follows_the_outcome() {
    assert_eq!(after_hotkey_press(true), PumpStep::DispatchMessage);
    assert_eq!(after_hotkey_press(false), UNREGISTER);
}

#[test]
fn pump_replies_out_of_place_are_not_accepted() {
    let (mut hotkey, _receiver) = hotkey();
    assert!(!hotkey.accepts(PumpReply::Done));
    assert!(!hotkey.accepts(message(1, WM_HOTKEY, 1)));
    advance(&mut hotkey, PumpReply::Registered(true));
    assert!(!hotkey.accepts(PumpReply::Registered(true)));
    assert!(!hotkey.accepts(PumpReply::Done));
}
