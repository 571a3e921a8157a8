use global_overlay::error::HotkeyError;
use global_overlay::overlay::{FrontApplication, OverlayAction, OverlayManager};

type Manager = OverlayManager<u32, &'static str, &'static str>;

const OTHER: FrontApplication = FrontApplication { app: 0x70, process_id: 41, current_process_id: 9 };
const OWN: FrontApplication = FrontApplication { app: 0x80, process_id: 9, current_process_id: 9 };

fn manager() -> Manager {
    match Manager::new(3, Some("item"), Ok("hotkey")) {
        Ok(manager) => manager,
        Err(_) => panic!("a registered hotkey gives a manager"),
    }
}

fn activate() -> Vec<OverlayAction> {
    vec![
        OverlayAction::ActivateSelf { ignoring_other_apps: true },
        OverlayAction::ActivateOverlayWindow,
    ]
}

#[test]
fn new_manager_is_hidden() {
    let manager = manager();
    assert!(!manager.is_visible());
    assert_eq!(*manager.overlay_window(), 3);
}

#[test]
fn refused_hotkey_gives_no_manager() {
    let refused = Manager::new(3, Some("item"), Err(HotkeyError::RegisterEventHotKey(-9878)));
    assert_eq!(refused.err(), Some(HotkeyError::RegisterEventHotKey(-9878)));
}

#[test]
fn showing_over_another_application_retains_it() {
    let mut manager = manager();
    assert_eq!(
        manager.toggle(Some(OTHER)),
        vec![
            OverlayAction::RetainApplication(0x70),
            OverlayAction::ActivateSelf { ignoring_other_apps: true },
            OverlayAction::ActivateOverlayWindow,
        ]
    );
    assert!(manager.is_visible());
}

#[test]
fn hiding_gives_the_focus_back() {
    let mut manager = manager();
    manager.toggle(Some(OTHER));
    assert_eq!(
        manager.toggle(Some(OWN)),
        vec![
            OverlayAction::HideSelf,
            OverlayAction::ReactivateApplication { app: 0x70, options: 1 },
            OverlayAction::ReleaseApplication(0x70),
        ]
    );
    assert!(!manager.is_visible());
    assert_eq!(*manager.overlay_window(), 3);
}

#[test]
fn own_application_is_not_recorded() {
    let mut manager = manager();
    assert_eq!(manager.toggle(Some(OWN)), activate());
    assert_eq!(manager.toggle(Some(OTHER)), vec![OverlayAction::HideSelf]);
}

#[test]
fn no_front_application_is_not_recorded() {
    let mut manager = manager();
    assert_eq!(manager.toggle(None), activate());
    assert_eq!(manager.toggle(None), vec![OverlayAction::HideSelf]);
}

#[test]
fn toggles_alternate_and_references_balance() {
    let mut manager = manager();
    let mut held: i32 = 0;
    for turn in 0..20 {
        assert_eq!(manager.is_visible(), turn % 2 == 1);
        let front = if turn % 3 == 0 { Some(OTHER) } else { Some(OWN) };
        for action in manager.toggle(front) {
            match action {
                OverlayAction::RetainApplication(_) => held += 1,
                OverlayAction::ReleaseApplication(_) => held -= 1,
                _ => {}
            }
        }
        assert!(held == 0 || (held == 1 && manager.is_visible()));
    }
    assert_eq!(held, 0);
}
