use global_overlay::macos_hotkey::{hotkey_callback, GlobalHotkey, Resource};
use global_overlay::startup::init;
use global_overlay::status_item::{handle_click, StatusItem, StatusItemReply, StatusItemStep};

const PARTS: StatusItem = StatusItem { item: 0x40, target: 0x30, sender_ptr: 0x10 };

fn advance(step: StatusItemStep, reply: StatusItemReply) -> StatusItemStep {
    assert!(step.accepts(reply));
    step.advance(reply)
}

#[test]
fn click_asks_for_one_toggle() {
    let startup = init();
    let mut receiver = startup.receiver;
    let (mut sender, step) = StatusItem::new(startup.sender);
    assert_eq!(step, StatusItemStep::BoxSender);
    assert!(receiver.try_recv().is_err());
    handle_click(&mut sender);
    assert!(receiver.try_recv().is_ok());
    assert!(receiver.try_recv().is_err());
}

#[test]
fn clicks_and_the_hotkey_share_a_channel() {
    let startup = init();
    let mut receiver = startup.receiver;
    let (mut sender, step) = StatusItem::beside(&startup.sender);
    assert_eq!(step, StatusItemStep::BoxSender);
    let (mut data, _registration) = GlobalHotkey::new(startup.sender);
    assert!(receiver.try_recv().is_err());
    handle_click(&mut sender);
    hotkey_callback(Some(&mut data));
    assert!(receiver.try_recv().is_ok());
    assert!(receiver.try_recv().is_ok());
    assert!(receiver.try_recv().is_err());
}

#[test]
fn status_item_declares_a_missing_class() {
    let (_sender, step) = StatusItem::new(init().sender);
    assert!(!step.accepts(StatusItemReply::Done));
    assert!(!step.accepts(StatusItemReply::SenderBoxed(0)));
    let step = advance(step, StatusItemReply::SenderBoxed(0x10));
    assert_eq!(
        step,
        StatusItemStep::LookUpClass { sender_ptr: 0x10, name: "GlobalOverlayStatusItemHandler" }
    );
    let step = advance(step, StatusItemReply::ClassLookedUp(None));
    assert_eq!(
        step,
        StatusItemStep::DeclareClass {
            sender_ptr: 0x10,
            name: "GlobalOverlayStatusItemHandler",
            superclass: "NSObject",
            ivar: "sender_ptr",
            selector: "clicked:",
        }
    );
    let step = advance(step, StatusItemReply::ClassDeclared(0x20));
    assert_eq!(
        step,
        StatusItemStep::CreateTarget { sender_ptr: 0x10, class: 0x20, ivar: "sender_ptr" }
    );
}

#[test]
fn status_item_is_made_step_by_step() {
    let (_sender, step) = StatusItem::new(init().sender);
    let step = advance(step, StatusItemReply::SenderBoxed(0x10));
    let step = advance(step, StatusItemReply::ClassLookedUp(Some(0x20)));
    assert_eq!(
        step,
        StatusItemStep::CreateTarget { sender_ptr: 0x10, class: 0x20, ivar: "sender_ptr" }
    );
    let step = advance(step, StatusItemReply::TargetCreated(0x30));
    assert_eq!(step, StatusItemStep::CreateItem { sender_ptr: 0x10, target: 0x30, length: -1 });
    let mut step = advance(step, StatusItemReply::ItemCreated(0x40));
    for expected in [
        StatusItemStep::RetainItem(PARTS),
        StatusItemStep::SetTitle { parts: PARTS, title: "Z" },
        StatusItemStep::RetainTarget(PARTS),
        StatusItemStep::SetTarget(PARTS),
        StatusItemStep::SetAction { parts: PARTS, action: "clicked:" },
    ] {
        assert_eq!(step, expected);
        assert!(!step.accepts(StatusItemReply::ItemCreated(1)));
        step = advance(step, StatusItemReply::Done);
    }
    assert_eq!(step, StatusItemStep::Created(PARTS));
    assert!(!step.accepts(StatusItemReply::Done));
}

#[test]
fn status_item_gives_its_sender_back() {
    assert_eq!(PARTS.release(), vec![Resource::StatusItem(0x40), Resource::Sender(0x10)]);
}
