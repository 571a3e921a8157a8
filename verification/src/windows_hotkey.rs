//! The hotkey under Windows: a message pump on a thread of its own registers Shift+Tab and asks
//! for a toggle at each hotkey message.
use crate::error::HotkeyError;
use crate::toggle_channel::{same_channel, ToggleSender};
use futures::channel::mpsc::UnboundedSender;
use vstd::prelude::*;
use vstd::string::*;

verus! {

/// The identifier that the hotkey is registered under.
pub const OVERLAY_HOTKEY_ID: i32 = 1;

/// `MOD_SHIFT`: either Shift key is held.
pub const MOD_SHIFT: u32 = 4;

/// `VK_TAB`, the virtual key of Tab.
pub const VK_TAB: u32 = 9;

/// `WM_HOTKEY`, the message that a registered hotkey posts.
pub const WM_HOTKEY: u32 = 0x0312;

/// Where the pump stands: the call that is to be made next.
#[derive(Debug, Clone, Copy, PartialEq, Eq, Structural)]
pub enum PumpStep {
    /// Register the hotkey.
    RegisterHotKey { id: i32, modifiers: u32, key: u32 },
    /// Wait for a message.
    GetMessage,
    /// Dispatch the message that came last.
    DispatchMessage,
    /// Give the hotkey up.
    UnregisterHotKey { id: i32 },
    /// Nothing is left to do.
    Finished,
}

/// What came of a call.
#[derive(Debug, Clone, Copy, PartialEq, Eq, Structural)]
pub enum PumpReply {
    /// Whether the hotkey was registered.
    Registered(bool),
    /// What `GetMessageW` returned, and the message that it filled in.
    Message { status: i32, message: u32, w_param: usize },
    /// The call was made; its result does not matter.
    Done,
}

/// Whether `reply` can be what came of the call of `step`.
pub open spec fn fits(step: PumpStep, reply: PumpReply) -> bool {
    match step {
        PumpStep::RegisterHotKey { .. } => reply is Registered,
        PumpStep::GetMessage => reply is Message,
        PumpStep::DispatchMessage => reply is Done,
        PumpStep::UnregisterHotKey { .. } => reply is Done,
        PumpStep::Finished => false,
    }
}

/// Whether a message says that the hotkey was pressed: its parameter, of which the low 32 bits
/// count, is the hotkey's identifier.
pub open spec fn is_hotkey_message(message: u32, w_param: usize) -> bool {
    message == WM_HOTKEY && w_param as int % 0x1_0000_0000 == OVERLAY_HOTKEY_ID
}

/// Whether `reply` is a press of the hotkey. A status of zero or less brings no message.
pub open spec fn is_hotkey_press(reply: PumpReply) -> bool {
    reply matches PumpReply::Message { status, message, w_param } && status > 0
        && is_hotkey_message(message, w_param)
}

/// The step after `step` when `reply` came of its call. `asked` is the outcome of the toggle
/// that a press of the hotkey asked for.
pub open spec fn next_step(step: PumpStep, reply: PumpReply, asked: Option<bool>) -> PumpStep {
    match reply {
        PumpReply::Registered(true) => PumpStep::GetMessage,
        PumpReply::Registered(false) => PumpStep::Finished,
        PumpReply::Message { status, .. } => if status <= 0 || asked == Some(false) {
            PumpStep::UnregisterHotKey { id: OVERLAY_HOTKEY_ID }
        } else {
            PumpStep::DispatchMessage
        },
        PumpReply::Done => if step is DispatchMessage {
            PumpStep::GetMessage
        } else {
            PumpStep::Finished
        },
    }
}

/// Says whether a message tells of the hotkey.
fn check_hotkey_message(message: u32, w_param: usize) -> (pressed: bool)
    ensures
        pressed == is_hotkey_message(message, w_param),
{
    let wide: u64 = w_param as u64;
    message == WM_HOTKEY && wide % 0x1_0000_0000 == OVERLAY_HOTKEY_ID as u64
}

/// The step after a press of the hotkey: the message is dispatched as long as toggles are taken;
/// when nobody receives them any more the hotkey is given up at once.
pub fn after_hotkey_press(taken: bool) -> (step: PumpStep)
    ensures
        step == (if taken {
            PumpStep::DispatchMessage
        } else {
            PumpStep::UnregisterHotKey { id: OVERLAY_HOTKEY_ID }
        }),
{
    if taken {
        PumpStep::DispatchMessage
    } else {
        PumpStep::UnregisterHotKey { id: OVERLAY_HOTKEY_ID }
    }
}

/// What to log when the hotkey could not be registered; `cause` is what the system reported.
pub fn registration_report(cause: &str) -> (text: String)
    ensures
        text@ == "RegisterHotKey failed: "@ + cause@,
{
    "RegisterHotKey failed: ".to_owned().concat(cause)
}

/// The hotkey: the message pump of its thread. Registering and pumping happen on one thread, as
/// the messages of a hotkey go to the thread that registered it.
pub struct GlobalHotkey {
    sender: ToggleSender,
    step: PumpStep,
}

impl GlobalHotkey {
    /// Where the pump stands.
    pub closed spec fn at(&self) -> PumpStep {
        self.step
    }

    /// The handle that toggles are asked for through.
    pub closed spec fn toggles(&self) -> ToggleSender {
        self.sender
    }

    /// A hotkey whose pump has not started. Whether it can be registered shows only on the
    /// pump's thread, so this succeeds.
    pub fn new(sender: UnboundedSender<()>) -> (hotkey: Result<GlobalHotkey, HotkeyError>)
        ensures
            hotkey matches Ok(hotkey) && {
                &&& hotkey.at() == PumpStep::RegisterHotKey {
                    id: OVERLAY_HOTKEY_ID,
                    modifiers: MOD_SHIFT,
                    key: VK_TAB,
                }
                &&& hotkey.toggles().handle() == sender
            },
    {
        Ok(
            GlobalHotkey {
                sender: ToggleSender::new(sender),
                step: PumpStep::RegisterHotKey {
                    id: OVERLAY_HOTKEY_ID,
                    modifiers: MOD_SHIFT,
                    key: VK_TAB,
                },
            },
        )
    }

    /// The call to make next.
    pub fn step(&self) -> (step: PumpStep)
        ensures
            step == self.at(),
    {
        self.step
    }

    /// Says whether [`GlobalHotkey::advance`] takes this reply now.
    pub fn accepts(&self, reply: PumpReply) -> (accepted: bool)
        ensures
            accepted == fits(self.at(), reply),
    {
        match self.step {
            PumpStep::RegisterHotKey { .. } => match reply {
                PumpReply::Registered(_) => true,
                _ => false,
            },
            PumpStep::GetMessage => match reply {
                PumpReply::Message { .. } => true,
                _ => false,
            },
            PumpStep::DispatchMessage | PumpStep::UnregisterHotKey { .. } => match reply {
                PumpReply::Done => true,
                _ => false,
            },
            PumpStep::Finished => false,
        }
    }

    /// Takes what came of the current call and goes on to the next. A press of the hotkey asks
    /// for one toggle; the answer is then whether the channel took it.
    pub fn advance(&mut self, reply: PumpReply) -> (asked: Option<bool>)
        requires
            fits(old(self).at(), reply),
        ensures
            asked is Some <==> is_hotkey_press(reply),
            match reply {
                PumpReply::Message { status, message, w_param } => {
                    &&& asked is Some <==> status > 0 && message == 0x0312 && w_param as int
                        % 0x1_0000_0000 == 1
                    &&& final(self).at() == if status <= 0 || asked == Some(false) {
                        PumpStep::UnregisterHotKey { id: 1 }
                    } else {
                        PumpStep::DispatchMessage
                    }
                },
                PumpReply::Registered(registered) => {
                    &&& asked is None
                    &&& final(self).at() == if registered {
                        PumpStep::GetMessage
                    } else {
                        PumpStep::Finished
                    }
                },
                PumpReply::Done => {
                    &&& asked is None
                    &&& final(self).at() == if old(self).at() is DispatchMessage {
                        PumpStep::GetMessage
                    } else {
                        PumpStep::Finished
                    }
                },
            },
            final(self).at() == next_step(old(self).at(), reply, asked),
            same_channel(final(self).toggles().handle(), old(self).toggles().handle()),
            final(self).toggles().outcomes() == match asked {
                Some(taken) => old(self).toggles().outcomes().push(taken),
                None => old(self).toggles().outcomes(),
            },
    {
        match reply {
            PumpReply::Registered(registered) => {
                self.step = if registered {
                    PumpStep::GetMessage
                } else {
                    PumpStep::Finished
                };
                None
            },
            PumpReply::Message { status, message, w_param } => {
                if status <= 0 {
                    self.step = PumpStep::UnregisterHotKey { id: OVERLAY_HOTKEY_ID };
                    None
                } else if check_hotkey_message(message, w_param) {
                    let taken = self.sender.send();
                    self.step = after_hotkey_press(taken);
                    Some(taken)
                } else {
                    self.step = PumpStep::DispatchMessage;
                    None
                }
            },
            PumpReply::Done => {
                self.step = match self.step {
                    PumpStep::DispatchMessage => PumpStep::GetMessage,
                    _ => PumpStep::Finished,
                };
                None
            },
        }
    }
}

/// One call made: what came of it, and the outcome of the toggle that it asked for.
pub struct Exchange {
    pub reply: PumpReply,
    pub asked: Option<bool>,
}

/// Where the pump stands after `exchanges`.
pub open spec fn run(exchanges: Seq<Exchange>) -> PumpStep
    decreases exchanges.len(),
{
    if exchanges.len() == 0 {
        PumpStep::RegisterHotKey { id: OVERLAY_HOTKEY_ID, modifiers: MOD_SHIFT, key: VK_TAB }
    } else {
        next_step(run(exchanges.drop_last()), exchanges.last().reply, exchanges.last().asked)
    }
}

/// Whether a pump can have had these exchanges since it started.
pub open spec fn is_conversation(exchanges: Seq<Exchange>) -> bool
    decreases exchanges.len(),
{
    exchanges.len() == 0 || {
        &&& is_conversation(exchanges.drop_last())
        &&& fits(run(exchanges.drop_last()), exchanges.last().reply)
        &&& exchanges.last().asked is Some <==> is_hotkey_press(exchanges.last().reply)
    }
}

/// How often the hotkey was given up in the course of `exchanges`.
pub open spec fn times_unregistered(exchanges: Seq<Exchange>) -> nat
    decreases exchanges.len(),
{
    if exchanges.len() == 0 {
        0
    } else if run(exchanges.drop_last()) is UnregisterHotKey {
        times_unregistered(exchanges.drop_last()) + 1
    } else {
        times_unregistered(exchanges.drop_last())
    }
}

/// Whether the hotkey was registered in the course of `exchanges`.
pub open spec fn was_registered(exchanges: Seq<Exchange>) -> bool {
    exchanges.len() > 0 && exchanges[0].reply == PumpReply::Registered(true)
}

/// A hotkey that was registered is given up exactly once, as the last thing that the pump does;
/// one that was not is never given up.
pub proof fn registered_hotkey_is_given_up_once(exchanges: Seq<Exchange>)
    requires
        is_conversation(exchanges),
    ensures
        times_unregistered(exchanges) == if run(exchanges) is Finished && was_registered(
            exchanges,
        ) {
            1nat
        } else {
            0nat
        },
        run(exchanges) is RegisterHotKey <==> exchanges.len() == 0,
        exchanges.len() > 0 && !was_registered(exchanges) ==> run(exchanges) is Finished,
        run(exchanges) matches PumpStep::UnregisterHotKey { id } ==> id == OVERLAY_HOTKEY_ID,
    decreases exchanges.len(),
{
    if exchanges.len() > 0 {
        registered_hotkey_is_given_up_once(exchanges.drop_last());
    }
}

/// A pump that still waits for messages has had all its toggles taken, and once one is not taken
/// no further message is waited for or dispatched.
pub proof fn pump_stops_when_nobody_receives(exchanges: Seq<Exchange>)
    requires
        is_conversation(exchanges),
    ensures
        run(exchanges) is GetMessage || run(exchanges) is DispatchMessage ==> forall|i: int|
            0 <= i < exchanges.len() ==> #[trigger] exchanges[i].asked != Some(false),
    decreases exchanges.len(),
{
    if exchanges.len() > 0 {
        let earlier = exchanges.drop_last();
        pump_stops_when_nobody_receives(earlier);
        if run(exchanges) is GetMessage || run(exchanges) is DispatchMessage {
            assert forall|i: int| 0 <= i < exchanges.len() implies #[trigger] exchanges[i].asked
                != Some(false) by {
                if i < earlier.len() {
                    if run(earlier) is RegisterHotKey {
                        registered_hotkey_is_given_up_once(earlier);
                    }
                    assert(earlier[i] == exchanges[i]);
                }
            }
        }
    }
}

/// A toggle is asked for exactly by a message that arrived, is the hotkey's kind and carries the
/// hotkey's identifier in the low half of its parameter; the high half does not matter.
pub proof fn only_hotkey_messages_ask_for_a_toggle(
    status: i32,
    message: u32,
    w_param: usize,
    other: usize,
)
    ensures
        is_hotkey_press(PumpReply::Message { status, message, w_param }) <==> status >= 1 && message
            == 786 && exists|high: int| #[trigger] (high * 0x1_0000_0000) + 1 == w_param,
        w_param as int % 0x1_0000_0000 == other as int % 0x1_0000_0000 ==> is_hotkey_press(
            PumpReply::Message { status, message, w_param },
        ) == is_hotkey_press(PumpReply::Message { status, message, w_param: other }),
        !is_hotkey_press(PumpReply::Done),
        !is_hotkey_press(PumpReply::Registered(true)),
        !is_hotkey_press(PumpReply::Registered(false)),
{
    let w: int = w_param as int;
    if w % 0x1_0000_0000 == 1 {
        let high = w / 0x1_0000_0000;
        assert((high * 0x1_0000_0000) + 1 == w);
    }
    assert forall|high: int| #[trigger] (high * 0x1_0000_0000) + 1 == w implies w % 0x1_0000_0000
        == 1 by {}
}

/// How a pump goes on, over whole conversations. It begins by registering Shift+Tab. A refusal
/// ends it; else it waits. A message that does not arrive, or a toggle that is not taken, has the
/// hotkey given up, after which the pump ends; every other message is dispatched, and then the
/// next is waited for.
pub proof fn pump_goes_from_message_to_message(
    exchanges: Seq<Exchange>,
    status: i32,
    message: u32,
    w_param: usize,
)
    requires
        is_conversation(exchanges),
    ensures
        exchanges.len() == 0 ==> run(exchanges) == (PumpStep::RegisterHotKey {
            id: 1,
            modifiers: 4,
            key: 9,
        }),
        exchanges.len() > 0 ==> {
            let before = run(exchanges.drop_last());
            let last = exchanges.last();
            match before {
                PumpStep::RegisterHotKey { .. } => {
                    &&& last.reply == PumpReply::Registered(true) ==> run(exchanges)
                        == PumpStep::GetMessage
                    &&& last.reply == PumpReply::Registered(false) ==> run(exchanges)
                        == PumpStep::Finished
                    &&& last.reply is Registered && last.asked is None
                },
                PumpStep::GetMessage => {
                    &&& last.reply is Message
                    &&& last.reply == (PumpReply::Message { status, message, w_param }) ==> {
                        &&& last.asked is Some <==> status > 0 && message == 786 && w_param as int
                            % 0x1_0000_0000 == 1
                        &&& run(exchanges) == PumpStep::DispatchMessage <==> status > 0
                            && last.asked != Some(false)
                        &&& run(exchanges) == (PumpStep::UnregisterHotKey { id: 1 }) <==> status
                            <= 0 || last.asked == Some(false)
                    }
                },
                PumpStep::DispatchMessage => {
                    &&& last.reply is Done && last.asked is None
                    &&& run(exchanges) == PumpStep::GetMessage
                },
                PumpStep::UnregisterHotKey { .. } => {
                    &&& last.reply is Done && last.asked is None
                    &&& run(exchanges) == PumpStep::Finished
                },
                PumpStep::Finished => false,
            }
        },
    decreases exchanges.len(),
{
    if exchanges.len() > 0 {
        pump_goes_from_message_to_message(exchanges.drop_last(), status, message, w_param);
    }
}

/// At each call exactly what comes of that call is taken, whatever it says. Nothing is taken once
/// the pump has ended.
pub proof fn replies_to_the_call_are_taken(step: PumpStep, reply: PumpReply)
    ensures
        reply is Registered ==> (fits(step, reply) <==> step is RegisterHotKey),
        reply is Message ==> (fits(step, reply) <==> step is GetMessage),
        reply is Done ==> (fits(step, reply) <==> step is DispatchMessage || step
            is UnregisterHotKey),
{
}

} // verus!
