//! The hotkey under macOS. A Carbon hotkey fires while another application is in front; a local
//! event monitor catches Shift+Tab before any window of the own application sees it.
use crate::error::HotkeyError;
use crate::toggle_channel::{same_channel, ToggleSender};
use futures::channel::mpsc::UnboundedSender;
use vstd::multiset::Multiset;
use vstd::pervasive::unreached;
use vstd::prelude::*;

verus! {

/// `kEventClassKeyboard`, the four characters `keyb`.
pub const EVENT_CLASS_KEYBOARD: u32 = 0x6b65_7962;

/// `kEventHotKeyPressed`.
pub const EVENT_HOT_KEY_PRESSED: u32 = 5;

/// The virtual key code of Tab.
pub const VKEY_TAB: u32 = 48;

/// Carbon's Shift modifier.
pub const CARBON_SHIFT_KEY: u32 = 0x0200;

/// The signature that the hotkey is registered under, the four characters `GZED`.
pub const HOT_KEY_SIGNATURE: u32 = 0x475a_4544;

/// The number that the hotkey is registered under.
pub const HOT_KEY_ID: u32 = 1;

/// `NSEventType::NSKeyDown`.
pub const NS_KEY_DOWN: u64 = 10;

/// The Shift bit of `NSEventModifierFlags`.
pub const NS_SHIFT_KEY_MASK: u64 = 0x2_0000;

/// Carbon's status for success.
pub const NO_ERR: i32 = 0;

/// What the Carbon event handler is given.
pub struct HotkeyCallbackData {
    sender: ToggleSender,
}

impl HotkeyCallbackData {
    /// The handle that toggles are asked for through.
    pub closed spec fn toggles(&self) -> ToggleSender {
        self.sender
    }
}

/// The Carbon event handler: asks for one toggle, if it was given its data, and reports success
/// whatever came of it.
pub fn hotkey_callback(user_data: Option<&mut HotkeyCallbackData>) -> (status: i32)
    ensures
        status == NO_ERR,
        user_data matches Some(data) ==> final(data).toggles().asked_once_since(&data.toggles()),
        user_data matches Some(data) ==> final(data).toggles().outcomes().len()
            == data.toggles().outcomes().len() + 1,
{
    match user_data {
        None => NO_ERR,
        Some(data) => {
            let _ = data.sender.send();
            NO_ERR
        },
    }
}

/// What becomes of a key event of the own application.
#[derive(Debug, Clone, Copy, PartialEq, Eq, Structural)]
pub enum KeyVerdict {
    /// The event ends here; no window sees it.
    Consume,
    /// The event goes on to the window that it is for.
    Pass,
}

/// Whether a key event is the hotkey: Tab while Shift is held.
pub open spec fn is_hotkey(key_code: u16, modifier_flags: u64) -> bool {
    key_code == VKEY_TAB && modifier_flags & NS_SHIFT_KEY_MASK != 0
}

/// The local event monitor: the hotkey asks for one toggle and is consumed, whatever came of
/// the toggle; every other key passes and asks for nothing.
pub fn monitor_key_down(
    sender: &mut ToggleSender,
    key_code: u16,
    modifier_flags: u64,
) -> (verdict: KeyVerdict)
    ensures
        verdict is Consume <==> is_hotkey(key_code, modifier_flags),
        verdict is Consume <==> key_code == 48 && modifier_flags & 0x2_0000 != 0,
        verdict is Consume ==> final(sender).outcomes().len() == old(sender).outcomes().len() + 1,
        verdict is Pass ==> *final(sender) == *old(sender),
        if is_hotkey(key_code, modifier_flags) {
            final(sender).asked_once_since(old(sender))
        } else {
            *final(sender) == *old(sender)
        },
{
    let shift_down = (modifier_flags & NS_SHIFT_KEY_MASK) != 0;
    if key_code as u32 == VKEY_TAB && shift_down {
        let _ = sender.send();
        KeyVerdict::Consume
    } else {
        KeyVerdict::Pass
    }
}

/// Something that the system, or the heap, has given out and that is to be given back. Zero is
/// the null reference.
#[derive(Debug, Clone, Copy, PartialEq, Eq, Structural)]
pub enum Resource {
    /// A registered Carbon hotkey.
    HotKey(usize),
    /// An installed Carbon event handler.
    EventHandler(usize),
    /// A local event monitor.
    LocalMonitor(usize),
    /// An item in the status bar.
    StatusItem(usize),
    /// The boxed handle that a monitor or a status item asks for toggles through.
    Sender(usize),
    /// The boxed data of the event handler, which owns a handle too.
    CallbackData(usize),
}

impl Resource {
    /// The reference itself.
    pub open spec fn reference(self) -> usize {
        match self {
            Resource::HotKey(reference) => reference,
            Resource::EventHandler(reference) => reference,
            Resource::LocalMonitor(reference) => reference,
            Resource::StatusItem(reference) => reference,
            Resource::Sender(reference) => reference,
            Resource::CallbackData(reference) => reference,
        }
    }
}

/// A registered hotkey: what is to be given back when it goes.
#[derive(Debug, Clone, Copy, PartialEq, Eq, Structural)]
pub struct GlobalHotkey {
    pub hotkey_ref: usize,
    pub handler_ref: usize,
    pub local_monitor: usize,
    pub sender_ptr: usize,
    pub callback_data: usize,
}

/// Where the registration of a hotkey stands: the request that is to be made next.
#[derive(Debug, Clone, Copy, PartialEq, Eq, Structural)]
pub enum RegistrationStep {
    /// Put the event handler's data on the heap.
    BoxCallbackData,
    /// Install the event handler, which is given `callback_data`, for `type_count` kinds of
    /// events, of which this is the first.
    InstallEventHandler {
        callback_data: usize,
        type_count: usize,
        event_class: u32,
        event_kind: u32,
    },
    /// Register the hotkey.
    RegisterEventHotKey {
        callback_data: usize,
        handler_ref: usize,
        key_code: u32,
        modifiers: u32,
        signature: u32,
        id: u32,
        options: u32,
    },
    /// Remove the event handler again: the hotkey was refused with this status.
    RemoveEventHandler { callback_data: usize, handler_ref: usize, status: i32 },
    /// Free the event handler's data: there will be no hotkey.
    FreeCallbackData { callback_data: usize, error: HotkeyError },
    /// Install the local event monitor for the events of this mask.
    InstallLocalMonitor { callback_data: usize, handler_ref: usize, hotkey_ref: usize, mask: u64 },
    /// The hotkey is registered.
    Registered(GlobalHotkey),
    /// The hotkey could not be registered.
    Failed(HotkeyError),
}

/// What came of a request.
#[derive(Debug, Clone, Copy, PartialEq, Eq, Structural)]
pub enum RegistrationReply {
    CallbackDataBoxed(usize),
    HandlerInstalled { status: i32, handler_ref: usize },
    HotKeyRegistered { status: i32, hotkey_ref: usize },
    HandlerRemoved,
    CallbackDataFreed,
    MonitorInstalled { monitor: usize, sender_ptr: usize },
}

/// Whether `reply` can be what came of the request of `step`. A box is never null.
pub open spec fn fits(step: RegistrationStep, reply: RegistrationReply) -> bool {
    match step {
        RegistrationStep::BoxCallbackData => {
            reply matches RegistrationReply::CallbackDataBoxed(callback_data) && callback_data != 0
        },
        RegistrationStep::InstallEventHandler { .. } => reply is HandlerInstalled,
        RegistrationStep::RegisterEventHotKey { .. } => reply is HotKeyRegistered,
        RegistrationStep::RemoveEventHandler { .. } => reply is HandlerRemoved,
        RegistrationStep::FreeCallbackData { .. } => reply is CallbackDataFreed,
        RegistrationStep::InstallLocalMonitor { .. } => {
            reply matches RegistrationReply::MonitorInstalled { sender_ptr, .. } && sender_ptr != 0
        },
        RegistrationStep::Registered(_) => false,
        RegistrationStep::Failed(_) => false,
    }
}

/// The step after `step` when `reply` came of its request.
pub open spec fn next_step(step: RegistrationStep, reply: RegistrationReply) -> RegistrationStep {
    match (step, reply) {
        (_, RegistrationReply::CallbackDataBoxed(callback_data)) => {
            RegistrationStep::InstallEventHandler {
                callback_data,
                type_count: 1,
                event_class: EVENT_CLASS_KEYBOARD,
                event_kind: EVENT_HOT_KEY_PRESSED,
            }
        },
        (
            RegistrationStep::InstallEventHandler { callback_data, .. },
            RegistrationReply::HandlerInstalled { status, handler_ref },
        ) => if status == NO_ERR {
            RegistrationStep::RegisterEventHotKey {
                callback_data,
                handler_ref,
                key_code: VKEY_TAB,
                modifiers: CARBON_SHIFT_KEY,
                signature: HOT_KEY_SIGNATURE,
                id: HOT_KEY_ID,
                options: 0,
            }
        } else {
            RegistrationStep::FreeCallbackData {
                callback_data,
                error: HotkeyError::InstallEventHandler(status),
            }
        },
        (
            RegistrationStep::RegisterEventHotKey { callback_data, handler_ref, .. },
            RegistrationReply::HotKeyRegistered { status, hotkey_ref },
        ) => if status == NO_ERR {
            RegistrationStep::InstallLocalMonitor {
                callback_data,
                handler_ref,
                hotkey_ref,
                mask: 1u64 << NS_KEY_DOWN,
            }
        } else {
            RegistrationStep::RemoveEventHandler { callback_data, handler_ref, status }
        },
        (
            RegistrationStep::RemoveEventHandler { callback_data, status, .. },
            RegistrationReply::HandlerRemoved,
        ) => RegistrationStep::FreeCallbackData {
            callback_data,
            error: HotkeyError::RegisterEventHotKey(status),
        },
        (
            RegistrationStep::FreeCallbackData { error, .. },
            RegistrationReply::CallbackDataFreed,
        ) => RegistrationStep::Failed(error),
        (
            RegistrationStep::InstallLocalMonitor { callback_data, handler_ref, hotkey_ref, .. },
            RegistrationReply::MonitorInstalled { monitor, sender_ptr },
        ) => RegistrationStep::Registered(
            GlobalHotkey {
                hotkey_ref,
                handler_ref,
                local_monitor: monitor,
                sender_ptr,
                callback_data,
            },
        ),
        _ => step,
    }
}

/// A registration under way.
pub struct Registration {
    sender: UnboundedSender<()>,
    step: RegistrationStep,
}

impl Registration {
    /// Where the registration stands.
    pub closed spec fn at(&self) -> RegistrationStep {
        self.step
    }

    /// The handle that the registration makes others from. It goes with the registration.
    pub closed spec fn handle(&self) -> UnboundedSender<()> {
        self.sender
    }

    /// The request to make next.
    pub fn step(&self) -> (step: RegistrationStep)
        ensures
            step == self.at(),
    {
        self.step
    }

    /// A handle for the local event monitor.
    pub fn monitor_sender(&self) -> (sender: ToggleSender)
        ensures
            same_channel(sender.handle(), self.handle()),
            sender.outcomes() == Seq::<bool>::empty(),
    {
        ToggleSender::another_of(&self.sender)
    }

    /// Says whether [`Registration::advance`] takes this reply now.
    pub fn accepts(&self, reply: RegistrationReply) -> (accepted: bool)
        ensures
            accepted == fits(self.at(), reply),
    {
        match (self.step, reply) {
            (
                RegistrationStep::BoxCallbackData,
                RegistrationReply::CallbackDataBoxed(callback_data),
            ) => callback_data != 0,
            (
                RegistrationStep::InstallEventHandler { .. },
                RegistrationReply::HandlerInstalled { .. },
            ) => true,
            (
                RegistrationStep::RegisterEventHotKey { .. },
                RegistrationReply::HotKeyRegistered { .. },
            ) => true,
            (
                RegistrationStep::RemoveEventHandler { .. },
                RegistrationReply::HandlerRemoved,
            ) => true,
            (
                RegistrationStep::FreeCallbackData { .. },
                RegistrationReply::CallbackDataFreed,
            ) => true,
            (
                RegistrationStep::InstallLocalMonitor { .. },
                RegistrationReply::MonitorInstalled { sender_ptr, .. },
            ) => sender_ptr != 0,
            _ => false,
        }
    }

    /// Takes the reply to the current request and goes on to the next.
    pub fn advance(&mut self, reply: RegistrationReply)
        requires
            fits(old(self).at(), reply),
        ensures
            final(self).at() == next_step(old(self).at(), reply),
            final(self).handle() == old(self).handle(),
    {
        self.step = match (self.step, reply) {
            (_, RegistrationReply::CallbackDataBoxed(callback_data)) => {
                RegistrationStep::InstallEventHandler {
                    callback_data,
                    type_count: 1,
                    event_class: EVENT_CLASS_KEYBOARD,
                    event_kind: EVENT_HOT_KEY_PRESSED,
                }
            },
            (
                RegistrationStep::InstallEventHandler { callback_data, .. },
                RegistrationReply::HandlerInstalled { status, handler_ref },
            ) => {
                if status != NO_ERR {
                    RegistrationStep::FreeCallbackData {
                        callback_data,
                        error: HotkeyError::InstallEventHandler(status),
                    }
                } else {
                    RegistrationStep::RegisterEventHotKey {
                        callback_data,
                        handler_ref,
                        key_code: VKEY_TAB,
                        modifiers: CARBON_SHIFT_KEY,
                        signature: HOT_KEY_SIGNATURE,
                        id: HOT_KEY_ID,
                        options: 0,
                    }
                }
            },
            (
                RegistrationStep::RegisterEventHotKey { callback_data, handler_ref, .. },
                RegistrationReply::HotKeyRegistered { status, hotkey_ref },
            ) => {
                if status != NO_ERR {
                    RegistrationStep::RemoveEventHandler { callback_data, handler_ref, status }
                } else {
                    RegistrationStep::InstallLocalMonitor {
                        callback_data,
                        handler_ref,
                        hotkey_ref,
                        mask: 1u64 << NS_KEY_DOWN,
                    }
                }
            },
            (
                RegistrationStep::RemoveEventHandler { callback_data, status, .. },
                RegistrationReply::HandlerRemoved,
            ) => RegistrationStep::FreeCallbackData {
                callback_data,
                error: HotkeyError::RegisterEventHotKey(status),
            },
            (
                RegistrationStep::FreeCallbackData { error, .. },
                RegistrationReply::CallbackDataFreed,
            ) => RegistrationStep::Failed(error),
            (
                RegistrationStep::InstallLocalMonitor {
                    callback_data,
                    handler_ref,
                    hotkey_ref,
                    ..
                },
                RegistrationReply::MonitorInstalled { monitor, sender_ptr },
            ) => RegistrationStep::Registered(
                GlobalHotkey {
                    hotkey_ref,
                    handler_ref,
                    local_monitor: monitor,
                    sender_ptr,
                    callback_data,
                },
            ),
            _ => unreached(),
        };
    }

    /// Ends the registration and drops its handle: the hotkey, or why there is none; `None`
    /// while a request is still to be made.
    pub fn finish(self) -> (outcome: Option<Result<GlobalHotkey, HotkeyError>>)
        ensures
            outcome == match self.at() {
                RegistrationStep::Registered(hotkey) => Some(Ok(hotkey)),
                RegistrationStep::Failed(error) => Some(Err(error)),
                _ => None,
            },
    {
        match self.step {
            RegistrationStep::Registered(hotkey) => Some(Ok(hotkey)),
            RegistrationStep::Failed(error) => Some(Err(error)),
            _ => None,
        }
    }
}

impl GlobalHotkey {
    /// Starts the registration of the hotkey. The first part of the answer is what the event
    /// handler is to be given.
    pub fn new(sender: UnboundedSender<()>) -> (started: (HotkeyCallbackData, Registration))
        ensures
            same_channel(started.0.toggles().handle(), sender),
            started.0.toggles().outcomes() == Seq::<bool>::empty(),
            started.1.handle() == sender,
            started.1.at() == RegistrationStep::BoxCallbackData,
    {
        let callback_data = HotkeyCallbackData { sender: ToggleSender::another_of(&sender) };
        (callback_data, Registration { sender, step: RegistrationStep::BoxCallbackData })
    }

    /// What the hotkey holds, in the order in which it is given back.
    pub open spec fn resources(&self) -> Seq<Resource> {
        seq![
            Resource::HotKey(self.hotkey_ref),
            Resource::EventHandler(self.handler_ref),
            Resource::LocalMonitor(self.local_monitor),
            Resource::Sender(self.sender_ptr),
            Resource::CallbackData(self.callback_data),
        ]
    }

    /// What is given back when the hotkey goes: everything that it holds and that is not null.
    pub open spec fn released(&self) -> Seq<Resource> {
        self.resources().filter(|held: Resource| held.reference() != 0)
    }

    /// What to give back when the hotkey goes, in order.
    pub fn release(&self) -> (released: Vec<Resource>)
        ensures
            released@ == self.released(),
    {
        let mut released: Vec<Resource> = Vec::new();
        if self.hotkey_ref != 0 {
            released.push(Resource::HotKey(self.hotkey_ref));
        }
        if self.handler_ref != 0 {
            released.push(Resource::EventHandler(self.handler_ref));
        }
        if self.local_monitor != 0 {
            released.push(Resource::LocalMonitor(self.local_monitor));
        }
        if self.sender_ptr != 0 {
            released.push(Resource::Sender(self.sender_ptr));
        }
        if self.callback_data != 0 {
            released.push(Resource::CallbackData(self.callback_data));
        }
        proof {
            lemma_release(*self);
        }
        released
    }
}

/// `resource` alone, or nothing if it is null.
spec fn unless_null(resource: Resource) -> Seq<Resource> {
    if resource.reference() != 0 {
        seq![resource]
    } else {
        Seq::empty()
    }
}

proof fn lemma_release(hotkey: GlobalHotkey)
    ensures
        hotkey.released() == unless_null(Resource::HotKey(hotkey.hotkey_ref)) + unless_null(
            Resource::EventHandler(hotkey.handler_ref),
        ) + unless_null(Resource::LocalMonitor(hotkey.local_monitor)) + unless_null(
            Resource::Sender(hotkey.sender_ptr),
        ) + unless_null(Resource::CallbackData(hotkey.callback_data)),
{
    let all = hotkey.resources();
    reveal_with_fuel(Seq::filter, 6);
    assert(all.drop_last() =~= all.take(4));
    assert(all.take(4).drop_last() =~= all.take(3));
    assert(all.take(3).drop_last() =~= all.take(2));
    assert(all.take(2).drop_last() =~= all.take(1));
    assert(all.take(1).drop_last() =~= all.take(0));
    assert(hotkey.released() =~= unless_null(all[0]) + unless_null(all[1]) + unless_null(all[2])
        + unless_null(all[3]) + unless_null(all[4]));
}

/// What a registration that stands at `step` has been given and not given back.
pub open spec fn held(step: RegistrationStep) -> Multiset<Resource> {
    let nothing = Multiset::<Resource>::empty();
    match step {
        RegistrationStep::BoxCallbackData => nothing,
        RegistrationStep::InstallEventHandler { callback_data, .. } => nothing.insert(
            Resource::CallbackData(callback_data),
        ),
        RegistrationStep::RegisterEventHotKey { callback_data, handler_ref, .. } => nothing.insert(
            Resource::CallbackData(callback_data),
        ).insert(Resource::EventHandler(handler_ref)),
        RegistrationStep::RemoveEventHandler { callback_data, handler_ref, .. } => nothing.insert(
            Resource::CallbackData(callback_data),
        ).insert(Resource::EventHandler(handler_ref)),
        RegistrationStep::FreeCallbackData { callback_data, .. } => nothing.insert(
            Resource::CallbackData(callback_data),
        ),
        RegistrationStep::InstallLocalMonitor { callback_data, handler_ref, hotkey_ref, .. } => {
            nothing.insert(Resource::CallbackData(callback_data)).insert(
                Resource::EventHandler(handler_ref),
            ).insert(Resource::HotKey(hotkey_ref))
        },
        RegistrationStep::Registered(hotkey) => hotkey.resources().to_multiset(),
        RegistrationStep::Failed(_) => nothing,
    }
}

/// What a reply gives out. A request that failed gives out nothing.
pub open spec fn given(reply: RegistrationReply) -> Multiset<Resource> {
    let nothing = Multiset::<Resource>::empty();
    match reply {
        RegistrationReply::CallbackDataBoxed(callback_data) => nothing.insert(
            Resource::CallbackData(callback_data),
        ),
        RegistrationReply::HandlerInstalled { status, handler_ref } => if status == NO_ERR {
            nothing.insert(Resource::EventHandler(handler_ref))
        } else {
            nothing
        },
        RegistrationReply::HotKeyRegistered { status, hotkey_ref } => if status == NO_ERR {
            nothing.insert(Resource::HotKey(hotkey_ref))
        } else {
            nothing
        },
        RegistrationReply::HandlerRemoved => nothing,
        RegistrationReply::CallbackDataFreed => nothing,
        RegistrationReply::MonitorInstalled { monitor, sender_ptr } => nothing.insert(
            Resource::LocalMonitor(monitor),
        ).insert(Resource::Sender(sender_ptr)),
    }
}

/// What the request of `step` gives back.
pub open spec fn given_back(step: RegistrationStep) -> Multiset<Resource> {
    let nothing = Multiset::<Resource>::empty();
    match step {
        RegistrationStep::RemoveEventHandler { handler_ref, .. } => nothing.insert(
            Resource::EventHandler(handler_ref),
        ),
        RegistrationStep::FreeCallbackData { callback_data, .. } => nothing.insert(
            Resource::CallbackData(callback_data),
        ),
        _ => nothing,
    }
}

/// Where a registration stands after `replies`.
pub open spec fn run(replies: Seq<RegistrationReply>) -> RegistrationStep
    decreases replies.len(),
{
    if replies.len() == 0 {
        RegistrationStep::BoxCallbackData
    } else {
        next_step(run(replies.drop_last()), replies.last())
    }
}

/// Whether a registration can have had these replies since it started.
pub open spec fn is_conversation(replies: Seq<RegistrationReply>) -> bool
    decreases replies.len(),
{
    replies.len() == 0 || {
        &&& is_conversation(replies.drop_last())
        &&& fits(run(replies.drop_last()), replies.last())
    }
}

/// Everything that was given out in the course of `replies`.
pub open spec fn all_given(replies: Seq<RegistrationReply>) -> Multiset<Resource>
    decreases replies.len(),
{
    if replies.len() == 0 {
        Multiset::empty()
    } else {
        all_given(replies.drop_last()).add(given(replies.last()))
    }
}

/// Everything that was given back in the course of `replies`.
pub open spec fn all_given_back(replies: Seq<RegistrationReply>) -> Multiset<Resource>
    decreases replies.len(),
{
    if replies.len() == 0 {
        Multiset::empty()
    } else {
        all_given_back(replies.drop_last()).add(given_back(run(replies.drop_last())))
    }
}

/// Nothing is lost in a registration: what it was given is what it has given back and what it
/// holds. One that failed has given everything back, so a refused hotkey leaves no event handler
/// behind and no handle of the channel; one that succeeded has given nothing back yet, and the
/// hotkey holds everything.
pub proof fn registration_loses_nothing(replies: Seq<RegistrationReply>)
    requires
        is_conversation(replies),
    ensures
        all_given(replies) == all_given_back(replies).add(held(run(replies))),
        run(replies) is Failed ==> all_given(replies) == all_given_back(replies),
        run(replies) matches RegistrationStep::Registered(hotkey) ==> all_given(replies)
            == hotkey.resources().to_multiset(),
    decreases replies.len(),
{
    if replies.len() > 0 {
        let earlier = replies.drop_last();
        let before = run(earlier);
        registration_loses_nothing(earlier);
        lemma_step_loses_nothing(before, replies.last());
        assert forall|resource: Resource|
            all_given(replies).count(resource) == #[trigger] all_given_back(replies).add(
                held(run(replies)),
            ).count(resource) by {
            assert(all_given(earlier).count(resource) == all_given_back(earlier).add(
                held(before),
            ).count(resource));
            assert(held(run(replies)).add(given_back(before)).count(resource) == held(before).add(
                given(replies.last()),
            ).count(resource));
        }
    }
    assert(all_given(replies) =~= all_given_back(replies).add(held(run(replies))));
    match run(replies) {
        RegistrationStep::Failed(_) => {
            assert(all_given(replies) =~= all_given_back(replies));
        },
        RegistrationStep::Registered(hotkey) => {
            lemma_nothing_given_back_without_failure(replies);
            assert(all_given(replies) =~= hotkey.resources().to_multiset());
        },
        _ => {},
    }
}

proof fn lemma_step_loses_nothing(step: RegistrationStep, reply: RegistrationReply)
    requires
        fits(step, reply),
    ensures
        held(next_step(step, reply)).add(given_back(step)) == held(step).add(given(reply)),
{
    broadcast use vstd::seq_lib::group_to_multiset_ensures;

    if let RegistrationStep::Registered(hotkey) = next_step(step, reply) {
        let pushed = Seq::<Resource>::empty().push(Resource::HotKey(hotkey.hotkey_ref)).push(
            Resource::EventHandler(hotkey.handler_ref),
        ).push(Resource::LocalMonitor(hotkey.local_monitor)).push(
            Resource::Sender(hotkey.sender_ptr),
        ).push(Resource::CallbackData(hotkey.callback_data));
        assert(hotkey.resources() =~= pushed);
    }
    assert(held(next_step(step, reply)).add(given_back(step)) =~= held(step).add(given(reply)));
}

proof fn lemma_nothing_given_back_without_failure(replies: Seq<RegistrationReply>)
    requires
        is_conversation(replies),
        !(run(replies) is FreeCallbackData),
        !(run(replies) is Failed),
    ensures
        all_given_back(replies) == Multiset::<Resource>::empty(),
    decreases replies.len(),
{
    if replies.len() > 0 {
        lemma_nothing_given_back_without_failure(replies.drop_last());
        assert(all_given_back(replies) =~= Multiset::<Resource>::empty());
    }
}

/// A hotkey that goes gives back each thing that it holds once, and no null reference. The event
/// handler's data and the monitor's handle are always among it, so that no handle of the channel
/// stays behind. Where nothing that the registration was given is null, it is everything that
/// the registration was given.
pub proof fn dropped_hotkey_leaves_nothing_behind(
    replies: Seq<RegistrationReply>,
    hotkey: GlobalHotkey,
)
    requires
        is_conversation(replies),
        run(replies) == RegistrationStep::Registered(hotkey),
    ensures
        hotkey.released().no_duplicates(),
        forall|resource: Resource| #[trigger]
            hotkey.released().contains(resource) <==> all_given(replies).count(resource) > 0
                && resource.reference() != 0,
        hotkey.released().contains(Resource::Sender(hotkey.sender_ptr)),
        hotkey.released().contains(Resource::CallbackData(hotkey.callback_data)),
        (forall|resource: Resource| #[trigger]
            all_given(replies).count(resource) > 0 ==> resource.reference() != 0)
            ==> hotkey.released() == hotkey.resources() && hotkey.released().to_multiset()
            == all_given(replies),
{
    registration_loses_nothing(replies);
    lemma_released_once(hotkey);
    lemma_boxes_are_not_null(replies);
    let all = hotkey.resources();
    all.to_multiset_ensures();
    assert forall|resource: Resource| #[trigger]
        hotkey.released().contains(resource) <==> all_given(replies).count(resource) > 0
            && resource.reference() != 0 by {
        lemma_released_contains(hotkey, resource);
    }
    assert(hotkey.released().contains(Resource::Sender(hotkey.sender_ptr))) by {
        assert(all[3] == Resource::Sender(hotkey.sender_ptr));
        lemma_released_contains(hotkey, all[3]);
    }
    assert(hotkey.released().contains(Resource::CallbackData(hotkey.callback_data))) by {
        assert(all[4] == Resource::CallbackData(hotkey.callback_data));
        lemma_released_contains(hotkey, all[4]);
    }
    if forall|resource: Resource| #[trigger]
        all_given(replies).count(resource) > 0 ==> resource.reference() != 0 {
        assert forall|i: int| 0 <= i < all.len() implies (#[trigger] all[i]).reference() != 0 by {
            assert(all.contains(all[i]));
            assert(all_given(replies).count(all[i]) > 0);
        }
        lemma_nothing_null_all_released(hotkey);
    }
}

proof fn lemma_nothing_null_all_released(hotkey: GlobalHotkey)
    requires
        forall|i: int|
            0 <= i < hotkey.resources().len() ==> (#[trigger] hotkey.resources()[i]).reference()
                != 0,
    ensures
        hotkey.released() == hotkey.resources(),
{
    lemma_release(hotkey);
    let all = hotkey.resources();
    assert(all[0].reference() != 0 && all[1].reference() != 0 && all[2].reference() != 0
        && all[3].reference() != 0 && all[4].reference() != 0);
    assert(hotkey.released() =~= all);
}

proof fn lemma_released_contains(hotkey: GlobalHotkey, resource: Resource)
    ensures
        hotkey.released().contains(resource) <==> hotkey.resources().contains(resource)
            && resource.reference() != 0,
{
    let all = hotkey.resources();
    let not_null = |held: Resource| held.reference() != 0;
    if all.contains(resource) && not_null(resource) {
        let i = choose|i: int| 0 <= i < all.len() && all[i] == resource;
        all.lemma_filter_contains(not_null, i);
    }
    if hotkey.released().contains(resource) {
        all.lemma_filter_contains_rev(not_null, resource);
        let i = choose|i: int|
            0 <= i < hotkey.released().len() && hotkey.released()[i] == resource;
        all.lemma_filter_pred(not_null, i);
    }
}

proof fn lemma_released_once(hotkey: GlobalHotkey)
    ensures
        hotkey.released().no_duplicates(),
{
    lemma_release(hotkey);
    let a = unless_null(Resource::HotKey(hotkey.hotkey_ref));
    let b = a + unless_null(Resource::EventHandler(hotkey.handler_ref));
    let c = b + unless_null(Resource::LocalMonitor(hotkey.local_monitor));
    let d = c + unless_null(Resource::Sender(hotkey.sender_ptr));
    assert(forall|i: int| 0 <= i < b.len() ==> b[i] is HotKey || b[i] is EventHandler);
    assert(b.no_duplicates());
    assert(forall|i: int|
        0 <= i < c.len() ==> c[i] is HotKey || c[i] is EventHandler || c[i] is LocalMonitor);
    assert(c.no_duplicates());
    assert(forall|i: int| 0 <= i < d.len() ==> !(d[i] is CallbackData));
    assert(d.no_duplicates());
}

proof fn lemma_boxes_are_not_null(replies: Seq<RegistrationReply>)
    requires
        is_conversation(replies),
    ensures
        match run(replies) {
            RegistrationStep::InstallEventHandler { callback_data, .. } => callback_data != 0,
            RegistrationStep::RegisterEventHotKey { callback_data, .. } => callback_data != 0,
            RegistrationStep::InstallLocalMonitor { callback_data, .. } => callback_data != 0,
            RegistrationStep::Registered(hotkey) => {
                hotkey.callback_data != 0 && hotkey.sender_ptr != 0
            },
            _ => true,
        },
    decreases replies.len(),
{
    if replies.len() > 0 {
        lemma_boxes_are_not_null(replies.drop_last());
    }
}

/// The local event monitor is shown key presses and no other type of event.
pub proof fn monitor_is_shown_key_presses_only(event_type: u64)
    requires
        event_type < 64,
    ensures
        (1u64 << NS_KEY_DOWN) & (1u64 << event_type) != 0 <==> event_type == NS_KEY_DOWN,
{
    assert((1u64 << 10u64) & (1u64 << event_type) != 0 <==> event_type == 10) by (bit_vector)
        requires
            event_type < 64,
    ;
}

/// A key event is the hotkey exactly if the key is Tab and the Shift flag, bit 17, is set. So no
/// other key is ever consumed, whatever flags it comes with, and of two events of Tab that agree
/// in that one flag either both are consumed or none.
pub proof fn only_shift_tab_is_the_hotkey(key_code: u16, modifier_flags: u64, other_flags: u64)
    ensures
        is_hotkey(key_code, modifier_flags) <==> key_code == 48 && (modifier_flags / 0x2_0000) % 2
            == 1,
        key_code != 48 ==> !is_hotkey(key_code, modifier_flags),
        (modifier_flags / 0x2_0000) % 2 == (other_flags / 0x2_0000) % 2 ==> is_hotkey(
            key_code,
            modifier_flags,
        ) == is_hotkey(key_code, other_flags),
{
    assert(modifier_flags & 0x2_0000 != 0 <==> (modifier_flags / 0x2_0000) % 2 == 1)
        by (bit_vector);
    assert(other_flags & 0x2_0000 != 0 <==> (other_flags / 0x2_0000) % 2 == 1) by (bit_vector);
}

/// The requests of a registration, in terms of what the replies so far said: the handler is
/// installed for one kind of event with the data that was boxed, then Tab with Shift is
/// registered, then the monitor is installed for key presses. Each reference that is passed on or
/// held in the end is the one that its own reply gave. A refusal is undone with that very
/// reference, and its status is the one that is told.
pub proof fn registration_makes_these_requests(replies: Seq<RegistrationReply>)
    requires
        is_conversation(replies),
    ensures
        replies.len() <= 5,
        replies.len() == 0 ==> run(replies) == RegistrationStep::BoxCallbackData,
        replies.len() > 0 ==> (replies[0] matches RegistrationReply::CallbackDataBoxed(data) && {
            &&& data != 0
            &&& replies.len() == 1 ==> run(replies) == (RegistrationStep::InstallEventHandler {
                callback_data: data,
                type_count: 1,
                event_class: 0x6b65_7962,
                event_kind: 5,
            })
            &&& replies.len() > 1 ==> (replies[1] matches RegistrationReply::HandlerInstalled {
                status: installed,
                handler_ref,
            } && {
                &&& installed != 0 ==> {
                    let error = HotkeyError::InstallEventHandler(installed);
                    &&& replies.len() <= 3
                    &&& replies.len() == 2 ==> run(replies) == (RegistrationStep::FreeCallbackData {
                        callback_data: data,
                        error,
                    })
                    &&& replies.len() == 3 ==> run(replies) == RegistrationStep::Failed(error)
                }
                &&& installed == 0 && replies.len() == 2 ==> run(replies) == (
                RegistrationStep::RegisterEventHotKey {
                    callback_data: data,
                    handler_ref,
                    key_code: 48,
                    modifiers: 0x0200,
                    signature: 0x475a_4544,
                    id: 1,
                    options: 0,
                })
                &&& installed == 0 && replies.len() > 2 ==> (
                replies[2] matches RegistrationReply::HotKeyRegistered {
                    status: registered,
                    hotkey_ref,
                } && {
                    &&& registered != 0 ==> {
                        let error = HotkeyError::RegisterEventHotKey(registered);
                        &&& replies.len() == 3 ==> run(replies) == (
                        RegistrationStep::RemoveEventHandler {
                            callback_data: data,
                            handler_ref,
                            status: registered,
                        })
                        &&& replies.len() == 4 ==> run(replies) == (
                        RegistrationStep::FreeCallbackData { callback_data: data, error })
                        &&& replies.len() == 5 ==> run(replies) == RegistrationStep::Failed(error)
                    }
                    &&& registered == 0 ==> {
                        &&& replies.len() <= 4
                        &&& replies.len() == 3 ==> run(replies) == (
                        RegistrationStep::InstallLocalMonitor {
                            callback_data: data,
                            handler_ref,
                            hotkey_ref,
                            mask: 1024,
                        })
                        &&& replies.len() == 4 ==> (
                        replies[3] matches RegistrationReply::MonitorInstalled {
                            monitor,
                            sender_ptr,
                        } && sender_ptr != 0 && run(replies) == RegistrationStep::Registered(
                            (GlobalHotkey {
                                hotkey_ref,
                                handler_ref,
                                local_monitor: monitor,
                                sender_ptr,
                                callback_data: data,
                            }),
                        ))
                    }
                })
            })
        }),
    decreases replies.len(),
{
    assert(1u64 << 10u64 == 1024) by (bit_vector);
    if replies.len() > 0 {
        registration_makes_these_requests(replies.drop_last());
    }
}

/// At each request exactly the replies to that request are taken, whatever they say; only a box
/// cannot be null. None is taken once the registration has ended.
pub proof fn replies_to_the_request_are_taken(step: RegistrationStep, reply: RegistrationReply)
    ensures
        reply matches RegistrationReply::CallbackDataBoxed(data) ==> (fits(step, reply) <==> step
            is BoxCallbackData && data != 0),
        reply is HandlerInstalled ==> (fits(step, reply) <==> step is InstallEventHandler),
        reply is HotKeyRegistered ==> (fits(step, reply) <==> step is RegisterEventHotKey),
        reply is HandlerRemoved ==> (fits(step, reply) <==> step is RemoveEventHandler),
        reply is CallbackDataFreed ==> (fits(step, reply) <==> step is FreeCallbackData),
        reply matches RegistrationReply::MonitorInstalled { sender_ptr, .. } ==> (fits(step, reply)
            <==> step is InstallLocalMonitor && sender_ptr != 0),
{
}

/// What a hotkey gives back, whatever it holds: of each kind its own reference, unless that is
/// null, and nothing else. The hotkey goes first, then its handler, then the monitor; a monitor
/// is gone before its handle is freed, and a handler before its data.
pub proof fn hotkey_is_given_back_in_order(hotkey: GlobalHotkey, reference: usize)
    ensures
        hotkey.released().contains(Resource::HotKey(reference)) <==> reference == hotkey.hotkey_ref
            && reference != 0,
        hotkey.released().contains(Resource::EventHandler(reference)) <==> reference
            == hotkey.handler_ref && reference != 0,
        hotkey.released().contains(Resource::LocalMonitor(reference)) <==> reference
            == hotkey.local_monitor && reference != 0,
        hotkey.released().contains(Resource::Sender(reference)) <==> reference == hotkey.sender_ptr
            && reference != 0,
        hotkey.released().contains(Resource::CallbackData(reference)) <==> reference
            == hotkey.callback_data && reference != 0,
        !hotkey.released().contains(Resource::StatusItem(reference)),
        hotkey.released().no_duplicates(),
        forall|i: int, j: int|
            #![trigger hotkey.released()[i], hotkey.released()[j]]
            0 <= i < j < hotkey.released().len() ==> {
                let earlier = hotkey.released()[i];
                let later = hotkey.released()[j];
                &&& !(later is HotKey)
                &&& later is EventHandler ==> earlier is HotKey
                &&& later is LocalMonitor ==> earlier is HotKey || earlier is EventHandler
                &&& later is Sender ==> !(earlier is CallbackData)
            },
{
    lemma_kinds_held(hotkey, reference);
    lemma_released_contains(hotkey, Resource::HotKey(reference));
    lemma_released_contains(hotkey, Resource::EventHandler(reference));
    lemma_released_contains(hotkey, Resource::LocalMonitor(reference));
    lemma_released_contains(hotkey, Resource::StatusItem(reference));
    lemma_released_contains(hotkey, Resource::Sender(reference));
    lemma_released_contains(hotkey, Resource::CallbackData(reference));
    lemma_released_once(hotkey);
    lemma_released_in_order(hotkey);
}

proof fn lemma_kinds_held(hotkey: GlobalHotkey, reference: usize)
    ensures
        hotkey.resources().contains(Resource::HotKey(reference)) <==> reference
            == hotkey.hotkey_ref,
        hotkey.resources().contains(Resource::EventHandler(reference)) <==> reference
            == hotkey.handler_ref,
        hotkey.resources().contains(Resource::LocalMonitor(reference)) <==> reference
            == hotkey.local_monitor,
        hotkey.resources().contains(Resource::Sender(reference)) <==> reference
            == hotkey.sender_ptr,
        hotkey.resources().contains(Resource::CallbackData(reference)) <==> reference
            == hotkey.callback_data,
        !hotkey.resources().contains(Resource::StatusItem(reference)),
{
    let all = hotkey.resources();
    assert(all[0] == Resource::HotKey(hotkey.hotkey_ref));
    assert(all[1] == Resource::EventHandler(hotkey.handler_ref));
    assert(all[2] == Resource::LocalMonitor(hotkey.local_monitor));
    assert(all[3] == Resource::Sender(hotkey.sender_ptr));
    assert(all[4] == Resource::CallbackData(hotkey.callback_data));
}

/// Where a kind of thing stands among those that a hotkey gives back.
spec fn place(resource: Resource) -> int {
    match resource {
        Resource::HotKey(_) => 0,
        Resource::EventHandler(_) => 1,
        Resource::LocalMonitor(_) => 2,
        Resource::Sender(_) => 3,
        _ => 4,
    }
}

spec fn in_order(resources: Seq<Resource>) -> bool {
    forall|i: int, j: int|
        #![trigger resources[i], resources[j]]
        0 <= i < j < resources.len() ==> place(resources[i]) < place(resources[j])
}

spec fn all_before(resources: Seq<Resource>, at: int) -> bool {
    forall|i: int| 0 <= i < resources.len() ==> place(#[trigger] resources[i]) < at
}

proof fn lemma_appended_in_order(resources: Seq<Resource>, last: Resource)
    requires
        in_order(resources),
        all_before(resources, place(last)),
    ensures
        in_order(resources + unless_null(last)),
        all_before(resources + unless_null(last), place(last) + 1),
{
    let longer = resources + unless_null(last);
    assert(forall|i: int|
        0 <= i < longer.len() ==> #[trigger] longer[i] == if i < resources.len() {
            resources[i]
        } else {
            last
        });
}

proof fn lemma_released_in_order(hotkey: GlobalHotkey)
    ensures
        in_order(hotkey.released()),
{
    lemma_release(hotkey);
    let none = Seq::<Resource>::empty();
    let a = unless_null(Resource::HotKey(hotkey.hotkey_ref));
    let b = a + unless_null(Resource::EventHandler(hotkey.handler_ref));
    let c = b + unless_null(Resource::LocalMonitor(hotkey.local_monitor));
    let d = c + unless_null(Resource::Sender(hotkey.sender_ptr));
    assert(none + a =~= a);
    lemma_appended_in_order(none, Resource::HotKey(hotkey.hotkey_ref));
    lemma_appended_in_order(a, Resource::EventHandler(hotkey.handler_ref));
    lemma_appended_in_order(b, Resource::LocalMonitor(hotkey.local_monitor));
    lemma_appended_in_order(c, Resource::Sender(hotkey.sender_ptr));
    lemma_appended_in_order(d, Resource::CallbackData(hotkey.callback_data));
}

} // verus!
