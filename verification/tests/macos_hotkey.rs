use futures::channel::mpsc::UnboundedReceiver;
use global_overlay::error::HotkeyError;
use global_overlay::macos_hotkey::{
    hotkey_callback, monitor_key_down, GlobalHotkey, HotkeyCallbackData, KeyVerdict, Registration,
    RegistrationReply, RegistrationStep, Resource, HOT_KEY_SIGNATURE, NS_SHIFT_KEY_MASK,
};
use global_overlay::startup::init;

fn started() -> (HotkeyCallbackData, Registration, UnboundedReceiver<()>) {
    let startup = init();
    let (data, registration) = GlobalHotkey::new(startup.sender);
    (data, registration, startup.receiver)
}

fn advance(registration: &mut Registration, reply: RegistrationReply) {
    assert!(registration.accepts(reply));
    registration.advance(reply);
}

fn boxed(registration: &mut Registration) {
    assert_eq!(registration.step(), RegistrationStep::BoxCallbackData);
    advance(registration, RegistrationReply::CallbackDataBoxed(0xe0));
}

fn installed(status: i32) -> RegistrationReply {
    RegistrationReply::HandlerInstalled { status, handler_ref: 0xa0 }
}

fn registered(status: i32) -> RegistrationReply {
    RegistrationReply::HotKeyRegistered { status, hotkey_ref: 0xb0 }
}

#[test]
fn callback_asks_for_one_toggle() {
    let (mut data, _registration, mut receiver) = started();
    assert_eq!(hotkey_callback(Some(&mut data)), 0);
    assert!(receiver.try_recv().is_ok());
    assert!(receiver.try_recv().is_err());
    drop(receiver);
    assert_eq!(hotkey_callback(Some(&mut data)), 0);
}

#[test]
fn callback_without_data_does_nothing() {
    let (_data, _registration, mut receiver) = started();
    assert_eq!(hotkey_callback(None), 0);
    assert!(receiver.try_recv().is_err());
}

#[test]
fn signature_is_four_characters() {
    assert_eq!(HOT_KEY_SIGNATURE, u32::from_be_bytes(*b"GZED"));
}

#[test]
fn registration_goes_through() {
    let (_data, mut registration, _receiver) = started();
    boxed(&mut registration);
    assert_eq!(
        registration.step(),
        RegistrationStep::InstallEventHandler {
            callback_data: 0xe0,
            type_count: 1,
            event_class: 0x6b657962,
            event_kind: 5,
        }
    );
    advance(&mut registration, installed(0));
    assert_eq!(
        registration.step(),
        RegistrationStep::RegisterEventHotKey {
            callback_data: 0xe0,
            handler_ref: 0xa0,
            key_code: 48,
            modifiers: 0x0200,
            signature: 0x475a4544,
            id: 1,
            options: 0,
        }
    );
    advance(&mut registration, registered(0));
    assert_eq!(
        registration.step(),
        RegistrationStep::InstallLocalMonitor {
            callback_data: 0xe0,
            handler_ref: 0xa0,
            hotkey_ref: 0xb0,
            mask: 1024,
        }
    );
    assert!(!registration
        .accepts(RegistrationReply::MonitorInstalled { monitor: 0xc0, sender_ptr: 0 }));
    assert!(registration
        .accepts(RegistrationReply::MonitorInstalled { monitor: 0, sender_ptr: 0xd0 }));
    advance(
        &mut registration,
        RegistrationReply::MonitorInstalled { monitor: 0xc0, sender_ptr: 0xd0 },
    );
    let hotkey = GlobalHotkey {
        hotkey_ref: 0xb0,
        handler_ref: 0xa0,
        local_monitor: 0xc0,
        sender_ptr: 0xd0,
        callback_data: 0xe0,
    };
    assert_eq!(registration.step(), RegistrationStep::Registered(hotkey));
    assert!(!registration.accepts(installed(0)));
    assert_eq!(registration.finish(), Some(Ok(hotkey)));
}

#[test]
fn refused_handler_fails() {
    let (_data, mut registration, _receiver) = started();
    boxed(&mut registration);
    advance(&mut registration, installed(-50));
    let error = HotkeyError::InstallEventHandler(-50);
    assert_eq!(
        registration.step(),
        RegistrationStep::FreeCallbackData { callback_data: 0xe0, error }
    );
    advance(&mut registration, RegistrationReply::CallbackDataFreed);
    assert_eq!(registration.step(), RegistrationStep::Failed(error));
    assert_eq!(registration.finish(), Some(Err(error)));
}

#[test]
fn refused_hotkey_removes_the_handler_and_fails() {
    let (_data, mut registration, _receiver) = started();
    boxed(&mut registration);
    advance(&mut registration, installed(0));
    advance(&mut registration, registered(-9878));
    assert_eq!(
        registration.step(),
        RegistrationStep::RemoveEventHandler {
            callback_data: 0xe0,
            handler_ref: 0xa0,
            status: -9878,
        }
    );
    advance(&mut registration, RegistrationReply::HandlerRemoved);
    let error = HotkeyError::RegisterEventHotKey(-9878);
    assert_eq!(
        registration.step(),
        RegistrationStep::FreeCallbackData { callback_data: 0xe0, error }
    );
    advance(&mut registration, RegistrationReply::CallbackDataFreed);
    assert_eq!(registration.finish(), Some(Err(error)));
}

#[test]
fn registration_replies_out_of_place_are_not_accepted() {
    let (_data, mut registration, _receiver) = started();
    assert!(!registration.accepts(registered(0)));
    assert!(!registration.accepts(RegistrationReply::HandlerRemoved));
    assert!(!registration.accepts(RegistrationReply::CallbackDataBoxed(0)));
    assert!(!registration.accepts(installed(0)));
    boxed(&mut registration);
    assert!(!registration.accepts(RegistrationReply::CallbackDataBoxed(1)));
    advance(&mut registration, installed(0));
    assert!(!registration.accepts(installed(0)));
    assert!(!registration
        .accepts(RegistrationReply::MonitorInstalled { monitor: 1, sender_ptr: 1 }));
    assert_eq!(registration.finish(), None);
}

#[test]
fn hotkey_gives_everything_back_in_order() {
    let hotkey = GlobalHotkey {
        hotkey_ref: 1,
        handler_ref: 2,
        local_monitor: 3,
        sender_ptr: 4,
        callback_data: 5,
    };
    assert_eq!(
        hotkey.release(),
        vec![
            Resource::HotKey(1),
            Resource::EventHandler(2),
            Resource::LocalMonitor(3),
            Resource::Sender(4),
            Resource::CallbackData(5),
        ]
    );
}

#[test]
fn null_references_are_not_given_back() {
    let hotkey = GlobalHotkey {
        hotkey_ref: 0,
        handler_ref: 2,
        local_monitor: 0,
        sender_ptr: 4,
        callback_data: 5,
    };
    assert_eq!(
        hotkey.release(),
        vec![Resource::EventHandler(2), Resource::Sender(4), Resource::CallbackData(5)]
    );
    let empty = GlobalHotkey {
        hotkey_ref: 0,
        handler_ref: 0,
        local_monitor: 0,
        sender_ptr: 0,
        callback_data: 0,
    };
    assert_eq!(empty.release(), Vec::new());
}

#[test]
fn monitor_consumes_shift_tab_only() {
    let (_data, registration, mut receiver) = started();
    let mut sender = registration.monitor_sender();
    assert_eq!(NS_SHIFT_KEY_MASK, 1 << 17);
    assert_eq!(monitor_key_down(&mut sender, 48, 1 << 17), KeyVerdict::Consume);
    assert_eq!(monitor_key_down(&mut sender, 48, (1 << 17) | (1 << 20) | 2), KeyVerdict::Consume);
    assert!(receiver.try_recv().is_ok());
    assert!(receiver.try_recv().is_ok());
    assert_eq!(monitor_key_down(&mut sender, 48, 0), KeyVerdict::Pass);
    assert_eq!(monitor_key_down(&mut sender, 48, 1 << 18), KeyVerdict::Pass);
    assert_eq!(monitor_key_down(&mut sender, 49, 1 << 17), KeyVerdict::Pass);
    assert!(receiver.try_recv().is_err());
    drop(receiver);
    assert_eq!(monitor_key_down(&mut sender, 48, 1 << 17), KeyVerdict::Consume);
}

#[test]
fn dropped_hotkey_closes_the_channel_after_what_is_queued() {
    let (data, mut registration, mut receiver) = started();
    let mut data = Some(data);
    boxed(&mut registration);
    advance(&mut registration, installed(0));
    advance(&mut registration, registered(0));
    let mut sender = Some(registration.monitor_sender());
    advance(
        &mut registration,
        RegistrationReply::MonitorInstalled { monitor: 0xc0, sender_ptr: 0xd0 },
    );
    let hotkey = match registration.finish() {
        Some(Ok(hotkey)) => hotkey,
        _ => panic!("the hotkey is registered"),
    };
    assert_eq!(hotkey_callback(data.as_mut()), 0);
    for resource in hotkey.release() {
        match resource {
            Resource::Sender(0xd0) => sender = None,
            Resource::CallbackData(0xe0) => data = None,
            _ => {}
        }
    }
    assert!(sender.is_none() && data.is_none());
    assert!(receiver.try_recv().is_ok());
    assert!(matches!(receiver.try_recv(), Err(error) if error.is_closed()));
}
