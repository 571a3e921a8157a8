use global_overlay::error::HotkeyError;
use global_overlay::overlay::OverlayManager;
use global_overlay::startup::{
    init, on_message, on_toggle_action, wire, ActionStep, KeyAction, TaskStep,
    WiringStep, TOGGLE_BINDING,
};
use global_overlay::toggle_channel::ToggleSender;

type Manager = OverlayManager<u32, (), ()>;

#[test]
fn both_ends_belong_to_one_channel() {
    let startup = init();
    let other = init();
    assert!(startup.sender.is_connected_to(&startup.receiver));
    assert!(!startup.sender.is_connected_to(&other.receiver));
}

#[test]
fn toggles_arrive_from_every_handle() {
    let startup = init();
    let mut receiver = startup.receiver;
    let mut second = ToggleSender::another_of(&startup.sender);
    let mut first = ToggleSender::new(startup.sender);
    assert!(first.send());
    assert!(second.send());
    drop(first);
    assert!(second.send());
    for _ in 0..3 {
        assert!(receiver.try_recv().is_ok());
    }
    assert!(receiver.try_recv().is_err());
    receiver.close();
    assert!(!second.send());
}

#[test]
fn manager_is_wired_in_order() {
    let startup = init();
    let manager = Manager::new(5, None, Ok(()));
    match wire(startup.receiver, manager) {
        Ok(wiring) => {
            assert_eq!(*wiring.manager.overlay_window(), 5);
            assert!(startup.sender.is_connected_to(&wiring.receiver));
            assert_eq!(
                wiring.steps,
                vec![
                    WiringStep::StoreManager,
                    WiringStep::BindKeys {
                        keys: "shift-tab",
                        action: KeyAction::ToggleGlobalOverlay,
                        context: None,
                    },
                    WiringStep::HandleAction(KeyAction::ToggleGlobalOverlay),
                    WiringStep::SpawnToggleTask,
                ]
            );
        }
        Err(_) => panic!("there is a manager"),
    }
    assert_eq!(TOGGLE_BINDING, "shift-tab");
}

#[test]
fn nothing_is_wired_without_a_manager() {
    let startup = init();
    let refused = Manager::new(5, None, Err(HotkeyError::PureWayland));
    assert_eq!(wire(startup.receiver, refused).err(), Some(HotkeyError::PureWayland));
}

#[test]
fn task_toggles_for_each_message_and_ends_with_the_channel() {
    assert_eq!(on_message(Some(())), TaskStep::Toggle);
    assert_eq!(on_message(None), TaskStep::Finish);
}

#[test]
fn action_needs_a_stored_manager() {
    assert_eq!(on_toggle_action(true), ActionStep::Toggle);
    assert_eq!(on_toggle_action(false), ActionStep::Ignore);
}

#[test]
fn messages_and_actions_toggle_one_manager() {
    for (messages, actions) in [(0, 0), (1, 0), (0, 1), (1, 1), (3, 2), (4, 2), (2, 5)] {
        let mut manager = match Manager::new(5, None, Ok(())) {
            Ok(manager) => manager,
            Err(_) => panic!("a registered hotkey gives a manager"),
        };
        for _ in 0..messages {
            if on_message(Some(())) == TaskStep::Toggle {
                manager.toggle(None);
            }
        }
        for _ in 0..actions {
            if on_toggle_action(true) == ActionStep::Toggle {
                manager.toggle(None);
            }
        }
        assert_eq!(manager.is_visible(), (messages + actions) % 2 == 1);
    }
}
