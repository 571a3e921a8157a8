//! The hotkey under X11: Shift+Tab is grabbed on the root window, and each press of Tab that
//! arrives from there asks for a toggle.
use crate::error::HotkeyError;
use crate::keyboard::{
    check_searchable, find_tab_keycode, first_tab_decides_the_keycode, is_searchable,
    no_tab_no_keycode, tab_keycode, tab_row_is_the_first_with_tab, XK_TAB,
};
use crate::toggle_channel::{same_channel, ToggleSender};
use futures::channel::mpsc::UnboundedSender;
use vstd::pervasive::unreached;
use vstd::prelude::*;
use vstd::string::*;

verus! {

/// The Shift modifier.
pub const MOD_SHIFT: u16 = 1;

/// The Caps Lock modifier.
pub const MOD_LOCK: u16 = 2;

/// The modifier that Num Lock sets.
pub const MOD_2: u16 = 16;

/// `GrabModeAsync`: event processing goes on as usual while the key is held.
pub const GRAB_MODE_ASYNC: u8 = 1;

/// The event mask that selects key presses.
pub const EVENT_MASK_KEY_PRESS: u32 = 1;

/// The arguments of one `GrabKey` request.
#[derive(Debug, Clone, Copy, PartialEq, Eq, Structural)]
pub struct KeyGrab {
    pub owner_events: bool,
    pub grab_window: u32,
    pub modifiers: u16,
    pub key: u8,
    pub pointer_mode: u8,
    pub keyboard_mode: u8,
}

/// Why the loop that waits for the hotkey ended. The texts are what the connection reported.
#[derive(Debug)]
pub enum GrabError {
    /// No connection to the display.
    Connect(String),
    /// A request could not be sent.
    NotSent(String),
    /// The keyboard mapping was refused.
    KeyboardMapping(String),
    /// No key of the keyboard produces Tab.
    NoTabKeycode,
    /// The grab of plain Shift+Tab was refused.
    Grab(String),
    /// A grab for an active lock key was refused.
    GrabExtraModifier(String),
    /// Key presses could not be selected.
    WindowAttributes(String),
    /// The requests could not be flushed.
    Flush(String),
    /// The connection broke while waiting.
    WaitForEvent(String),
}

impl GrabError {
    /// The text for this error.
    pub open spec fn text(&self) -> Seq<char> {
        match self {
            GrabError::Connect(cause) => "Failed to connect to X11 display: "@ + cause@,
            GrabError::NotSent(cause) => cause@,
            GrabError::KeyboardMapping(cause) => "GetKeyboardMapping failed: "@ + cause@,
            GrabError::NoTabKeycode => "Could not find keycode for XK_Tab"@,
            GrabError::Grab(cause) => "XGrabKey failed: "@ + cause@,
            GrabError::GrabExtraModifier(cause) => "XGrabKey (extra mod) failed: "@ + cause@,
            GrabError::WindowAttributes(cause) => "ChangeWindowAttributes failed: "@ + cause@,
            GrabError::Flush(cause) => "X11 flush failed: "@ + cause@,
            GrabError::WaitForEvent(cause) => "X11 wait_for_event failed: "@ + cause@,
        }
    }

    /// What to tell the user.
    pub fn message(&self) -> (message: String)
        ensures
            message@ == self.text(),
    {
        match self {
            GrabError::Connect(cause) => {
                "Failed to connect to X11 display: ".to_owned().concat(cause.as_str())
            },
            GrabError::NotSent(cause) => cause.clone(),
            GrabError::KeyboardMapping(cause) => {
                "GetKeyboardMapping failed: ".to_owned().concat(cause.as_str())
            },
            GrabError::NoTabKeycode => "Could not find keycode for XK_Tab".to_owned(),
            GrabError::Grab(cause) => "XGrabKey failed: ".to_owned().concat(cause.as_str()),
            GrabError::GrabExtraModifier(cause) => {
                "XGrabKey (extra mod) failed: ".to_owned().concat(cause.as_str())
            },
            GrabError::WindowAttributes(cause) => {
                "ChangeWindowAttributes failed: ".to_owned().concat(cause.as_str())
            },
            GrabError::Flush(cause) => "X11 flush failed: ".to_owned().concat(cause.as_str()),
            GrabError::WaitForEvent(cause) => {
                "X11 wait_for_event failed: ".to_owned().concat(cause.as_str())
            },
        }
    }

    /// What to log when the loop ends with this error.
    pub fn report(&self) -> (text: String)
        ensures
            text@ == "Global overlay hotkey X11 grab loop failed: "@ + self.text(),
    {
        "Global overlay hotkey X11 grab loop failed: ".to_owned().concat(self.message().as_str())
    }
}

/// Where the loop stands: the request that is to be made next.
#[derive(Debug)]
pub enum GrabStep {
    /// Connect to the display.
    Connect,
    /// Ask for the keysyms of `count` keycodes from `min_keycode` up.
    GetKeyboardMapping { root: u32, min_keycode: u8, count: u8 },
    /// Make the `nth` of the grabs, counted from zero.
    GrabKey { nth: u8, grab: KeyGrab },
    /// Select events on the root window.
    SelectEvents { root: u32, event_mask: u32, tab_keycode: u8 },
    /// Flush the requests.
    Flush { root: u32, tab_keycode: u8 },
    /// Wait for the next event.
    WaitForEvent { root: u32, tab_keycode: u8 },
    /// Nothing is left to do.
    Finished(Result<(), GrabError>),
}

/// What came of a request.
#[derive(Debug)]
pub enum GrabReply {
    /// The connection stands; this is what the display says of itself.
    Connected { min_keycode: u8, max_keycode: u8, roots: Vec<u32>, screen: usize },
    /// The keyboard mapping, `per_keycode` keysyms for each keycode.
    KeyboardMapping { per_keycode: u8, keysyms: Vec<u32> },
    /// The request went through.
    Done,
    /// The request could not be sent.
    NotSent(String),
    /// The request failed.
    Failed(String),
    /// A key was pressed.
    KeyPress { detail: u8 },
    /// Something else happened.
    OtherEvent,
}

/// The modifiers to grab Tab with, in order: Shift alone, then Shift with Num Lock, with Caps
/// Lock and with both, so that the hotkey works regardless of the lock keys' state.
pub open spec fn grab_modifiers() -> Seq<u16> {
    seq![MOD_SHIFT, MOD_SHIFT | MOD_2, MOD_SHIFT | MOD_LOCK, MOD_SHIFT | MOD_2 | MOD_LOCK]
}

/// The grabs of Tab on `root`, in order.
pub open spec fn all_grabs(root: u32, tab_keycode: u8) -> Seq<KeyGrab> {
    grab_modifiers().map_values(|modifiers: u16| key_grab(root, modifiers, tab_keycode))
}

/// A grab on `root` that leaves event processing alone.
pub open spec fn key_grab(root: u32, modifiers: u16, tab_keycode: u8) -> KeyGrab {
    KeyGrab {
        owner_events: false,
        grab_window: root,
        modifiers,
        key: tab_keycode,
        pointer_mode: GRAB_MODE_ASYNC,
        keyboard_mode: GRAB_MODE_ASYNC,
    }
}

/// The step that makes the `nth` grab, or the one after the grabs if there is no `nth`.
pub open spec fn grab_step(root: u32, tab_keycode: u8, nth: int) -> GrabStep {
    if nth < all_grabs(root, tab_keycode).len() {
        GrabStep::GrabKey { nth: nth as u8, grab: all_grabs(root, tab_keycode)[nth] }
    } else {
        GrabStep::SelectEvents { root, event_mask: EVENT_MASK_KEY_PRESS, tab_keycode }
    }
}

/// Whether `step` is one that the loop can stand at.
pub open spec fn is_step(step: GrabStep) -> bool {
    match step {
        GrabStep::GrabKey { nth, grab } => {
            &&& nth < grab_modifiers().len()
            &&& step == grab_step(grab.grab_window, grab.key, nth as int)
        },
        GrabStep::SelectEvents { event_mask, .. } => event_mask == EVENT_MASK_KEY_PRESS,
        _ => true,
    }
}

/// Whether `reply` can be what came of the request of `step`.
pub open spec fn fits(step: GrabStep, reply: GrabReply) -> bool {
    match step {
        GrabStep::Connect => match reply {
            GrabReply::Connected { min_keycode, max_keycode, roots, screen } => {
                &&& screen < roots@.len()
                &&& 0 <= max_keycode - min_keycode < u8::MAX
            },
            GrabReply::Failed(_) => true,
            _ => false,
        },
        GrabStep::GetKeyboardMapping { min_keycode, .. } => match reply {
            GrabReply::KeyboardMapping { per_keycode, keysyms } => is_searchable(
                min_keycode,
                per_keycode,
                keysyms@,
            ),
            GrabReply::NotSent(_) | GrabReply::Failed(_) => true,
            _ => false,
        },
        GrabStep::GrabKey { .. } | GrabStep::SelectEvents { .. } => {
            reply is Done || reply is NotSent || reply is Failed
        },
        GrabStep::Flush { .. } => reply is Done || reply is Failed,
        GrabStep::WaitForEvent { .. } => {
            reply is KeyPress || reply is OtherEvent || reply is Failed
        },
        GrabStep::Finished(_) => false,
    }
}

/// Whether `reply` is a press of the hotkey.
pub open spec fn is_hotkey_press(step: GrabStep, reply: GrabReply) -> bool {
    match (step, reply) {
        (GrabStep::WaitForEvent { tab_keycode, .. }, GrabReply::KeyPress { detail }) => {
            detail == tab_keycode
        },
        _ => false,
    }
}

/// How the loop ends when a request failed.
pub open spec fn failure(step: GrabStep, cause: String) -> GrabError {
    match step {
        GrabStep::Connect => GrabError::Connect(cause),
        GrabStep::GetKeyboardMapping { .. } => GrabError::KeyboardMapping(cause),
        GrabStep::GrabKey { nth, .. } => if nth == 0 {
            GrabError::Grab(cause)
        } else {
            GrabError::GrabExtraModifier(cause)
        },
        GrabStep::SelectEvents { .. } => GrabError::WindowAttributes(cause),
        GrabStep::Flush { .. } => GrabError::Flush(cause),
        _ => GrabError::WaitForEvent(cause),
    }
}

/// The step after `step` when `reply` came of its request. `asked` is the outcome of the toggle
/// that a press of the hotkey asked for.
pub open spec fn next_step(step: GrabStep, reply: GrabReply, asked: Option<bool>) -> GrabStep {
    match reply {
        GrabReply::NotSent(cause) => GrabStep::Finished(Err(GrabError::NotSent(cause))),
        GrabReply::Failed(cause) => GrabStep::Finished(Err(failure(step, cause))),
        GrabReply::Connected { min_keycode, max_keycode, roots, screen } => {
            GrabStep::GetKeyboardMapping {
                root: roots@[screen as int],
                min_keycode,
                count: (max_keycode - min_keycode + 1) as u8,
            }
        },
        GrabReply::KeyboardMapping { per_keycode, keysyms } => match step {
            GrabStep::GetKeyboardMapping { root, min_keycode, .. } => match tab_keycode(
                min_keycode,
                per_keycode,
                keysyms@,
            ) {
                Some(keycode) => grab_step(root, keycode as u8, 0),
                None => GrabStep::Finished(Err(GrabError::NoTabKeycode)),
            },
            _ => step,
        },
        GrabReply::Done => match step {
            GrabStep::GrabKey { nth, grab } => grab_step(grab.grab_window, grab.key, nth + 1),
            GrabStep::SelectEvents { root, tab_keycode, .. } => {
                GrabStep::Flush { root, tab_keycode }
            },
            GrabStep::Flush { root, tab_keycode } => GrabStep::WaitForEvent { root, tab_keycode },
            _ => step,
        },
        GrabReply::KeyPress { .. } | GrabReply::OtherEvent => if asked == Some(false) {
            GrabStep::Finished(Ok(()))
        } else {
            step
        },
    }
}

/// The step that makes the `nth` grab, or the one after the grabs if there is no `nth`.
fn make_grab_step(root: u32, tab_keycode: u8, nth: u8) -> (step: GrabStep)
    ensures
        step == grab_step(root, tab_keycode, nth as int),
{
    let modifiers: u16 = match nth {
        0 => MOD_SHIFT,
        1 => MOD_SHIFT | MOD_2,
        2 => MOD_SHIFT | MOD_LOCK,
        3 => MOD_SHIFT | MOD_2 | MOD_LOCK,
        _ => {
            return GrabStep::SelectEvents { root, event_mask: EVENT_MASK_KEY_PRESS, tab_keycode };
        },
    };
    GrabStep::GrabKey {
        nth,
        grab: KeyGrab {
            owner_events: false,
            grab_window: root,
            modifiers,
            key: tab_keycode,
            pointer_mode: GRAB_MODE_ASYNC,
            keyboard_mode: GRAB_MODE_ASYNC,
        },
    }
}

/// The step after a press of the hotkey: waiting goes on as long as toggles are taken, and ends
/// in good order when nobody receives them any more.
pub fn after_hotkey_press(root: u32, tab_keycode: u8, taken: bool) -> (step: GrabStep)
    ensures
        step == (if taken {
            GrabStep::WaitForEvent { root, tab_keycode }
        } else {
            GrabStep::Finished(Ok(()))
        }),
{
    if taken {
        GrabStep::WaitForEvent { root, tab_keycode }
    } else {
        GrabStep::Finished(Ok(()))
    }
}

/// The hotkey: the loop that grabs Shift+Tab and waits for it to be pressed.
pub struct GlobalHotkey {
    sender: ToggleSender,
    step: GrabStep,
}

impl GlobalHotkey {
    /// The loop stands at a step that it can stand at.
    pub open spec fn wf(&self) -> bool {
        is_step(self.at())
    }

    /// Where the loop stands.
    pub closed spec fn at(&self) -> GrabStep {
        self.step
    }

    /// The handle that toggles are asked for through.
    pub closed spec fn toggles(&self) -> ToggleSender {
        self.sender
    }

    /// A hotkey whose loop has not started. The arguments say whether the environment names a
    /// Wayland display and an X11 display: keys can be grabbed under X11 only, so a Wayland
    /// display without an X11 one is refused.
    pub fn new(
        wayland_display: bool,
        display: bool,
        sender: UnboundedSender<()>,
    ) -> (hotkey: Result<GlobalHotkey, HotkeyError>)
        ensures
            match hotkey {
                Ok(hotkey) => {
                    &&& !wayland_display || display
                    &&& hotkey.wf()
                    &&& hotkey.at() == GrabStep::Connect
                    &&& hotkey.toggles().handle() == sender
                },
                Err(error) => wayland_display && !display && error is PureWayland,
            },
    {
        if wayland_display && !display {
            return Err(HotkeyError::PureWayland);
        }
        Ok(GlobalHotkey { sender: ToggleSender::new(sender), step: GrabStep::Connect })
    }

    /// The request to make next.
    pub fn step(&self) -> (step: &GrabStep)
        ensures
            *step == self.at(),
    {
        &self.step
    }

    /// Says whether [`GlobalHotkey::advance`] takes this reply now.
    pub fn accepts(&self, reply: &GrabReply) -> (accepted: bool)
        ensures
            accepted == fits(self.at(), *reply),
    {
        match &self.step {
            GrabStep::Connect => match reply {
                GrabReply::Connected { min_keycode, max_keycode, roots, screen } => {
                    *screen < roots.len() && *min_keycode <= *max_keycode && *max_keycode
                        - *min_keycode < u8::MAX
                },
                GrabReply::Failed(_) => true,
                _ => false,
            },
            GrabStep::GetKeyboardMapping { min_keycode, .. } => match reply {
                GrabReply::KeyboardMapping { per_keycode, keysyms } => check_searchable(
                    *min_keycode,
                    *per_keycode,
                    keysyms,
                ),
                GrabReply::NotSent(_) | GrabReply::Failed(_) => true,
                _ => false,
            },
            GrabStep::GrabKey { .. } | GrabStep::SelectEvents { .. } => match reply {
                GrabReply::Done | GrabReply::NotSent(_) | GrabReply::Failed(_) => true,
                _ => false,
            },
            GrabStep::Flush { .. } => match reply {
                GrabReply::Done | GrabReply::Failed(_) => true,
                _ => false,
            },
            GrabStep::WaitForEvent { .. } => match reply {
                GrabReply::KeyPress { .. } | GrabReply::OtherEvent | GrabReply::Failed(_) => true,
                _ => false,
            },
            GrabStep::Finished(_) => false,
        }
    }

    /// Takes the reply to the current request and goes on to the next. A press of the hotkey
    /// asks for one toggle; the answer is then whether the channel took it.
    pub fn advance(&mut self, reply: GrabReply) -> (asked: Option<bool>)
        requires
            old(self).wf(),
            fits(old(self).at(), reply),
        ensures
            final(self).wf(),
            asked is Some <==> is_hotkey_press(old(self).at(), reply),
            match (old(self).at(), reply) {
                (GrabStep::WaitForEvent { tab_keycode, .. }, GrabReply::KeyPress { detail }) => {
                    &&& asked is Some <==> detail == tab_keycode
                    &&& final(self).at() == if asked == Some(false) {
                        GrabStep::Finished(Ok(()))
                    } else {
                        old(self).at()
                    }
                },
                (_, GrabReply::OtherEvent) => asked is None && final(self).at() == old(self).at(),
                _ => asked is None,
            },
            final(self).at() == next_step(old(self).at(), reply, asked),
            same_channel(final(self).toggles().handle(), old(self).toggles().handle()),
            final(self).toggles().outcomes() == match asked {
                Some(taken) => old(self).toggles().outcomes().push(taken),
                None => old(self).toggles().outcomes(),
            },
    {
        let mut asked: Option<bool> = None;
        let next = match reply {
            GrabReply::NotSent(cause) => GrabStep::Finished(Err(GrabError::NotSent(cause))),
            GrabReply::Failed(cause) => GrabStep::Finished(Err(self.failed(cause))),
            GrabReply::Connected { min_keycode, max_keycode, roots, screen } => {
                GrabStep::GetKeyboardMapping {
                    root: roots[screen],
                    min_keycode,
                    count: max_keycode - min_keycode + 1,
                }
            },
            GrabReply::KeyboardMapping { per_keycode, keysyms } => match self.step {
                GrabStep::GetKeyboardMapping { root, min_keycode, .. } => match find_tab_keycode(
                    min_keycode,
                    per_keycode,
                    &keysyms,
                ) {
                    Some(keycode) => make_grab_step(root, keycode, 0),
                    None => GrabStep::Finished(Err(GrabError::NoTabKeycode)),
                },
                _ => unreached(),
            },
            GrabReply::Done => match self.step {
                GrabStep::GrabKey { nth, grab } => {
                    make_grab_step(grab.grab_window, grab.key, nth + 1)
                },
                GrabStep::SelectEvents { root, tab_keycode, .. } => {
                    GrabStep::Flush { root, tab_keycode }
                },
                GrabStep::Flush { root, tab_keycode } => {
                    GrabStep::WaitForEvent { root, tab_keycode }
                },
                _ => unreached(),
            },
            GrabReply::KeyPress { detail } => match self.step {
                GrabStep::WaitForEvent { root, tab_keycode } => {
                    if detail == tab_keycode {
                        let taken = self.sender.send();
                        asked = Some(taken);
                        after_hotkey_press(root, tab_keycode, taken)
                    } else {
                        GrabStep::WaitForEvent { root, tab_keycode }
                    }
                },
                _ => unreached(),
            },
            GrabReply::OtherEvent => match self.step {
                GrabStep::WaitForEvent { root, tab_keycode } => {
                    GrabStep::WaitForEvent { root, tab_keycode }
                },
                _ => unreached(),
            },
        };
        self.step = next;
        asked
    }

    fn failed(&self, cause: String) -> (error: GrabError)
        ensures
            error == failure(self.at(), cause),
    {
        match self.step {
            GrabStep::Connect => GrabError::Connect(cause),
            GrabStep::GetKeyboardMapping { .. } => GrabError::KeyboardMapping(cause),
            GrabStep::GrabKey { nth, .. } => if nth == 0 {
                GrabError::Grab(cause)
            } else {
                GrabError::GrabExtraModifier(cause)
            },
            GrabStep::SelectEvents { .. } => GrabError::WindowAttributes(cause),
            GrabStep::Flush { .. } => GrabError::Flush(cause),
            _ => GrabError::WaitForEvent(cause),
        }
    }
}

/// One request answered: its reply, and the outcome of the toggle that it asked for.
pub struct Exchange {
    pub reply: GrabReply,
    pub asked: Option<bool>,
}

/// Where the loop stands after `exchanges`.
pub open spec fn run(exchanges: Seq<Exchange>) -> GrabStep
    decreases exchanges.len(),
{
    if exchanges.len() == 0 {
        GrabStep::Connect
    } else {
        next_step(run(exchanges.drop_last()), exchanges.last().reply, exchanges.last().asked)
    }
}

/// Whether a loop can have had these exchanges since it started: each reply fits its request,
/// and toggles are asked for by presses of the hotkey.
pub open spec fn is_conversation(exchanges: Seq<Exchange>) -> bool
    decreases exchanges.len(),
{
    exchanges.len() == 0 || {
        let before = run(exchanges.drop_last());
        let last = exchanges.last();
        &&& is_conversation(exchanges.drop_last())
        &&& fits(before, last.reply)
        &&& last.asked is Some <==> is_hotkey_press(before, last.reply)
    }
}

/// The grabs that went through in the course of `exchanges`, in order.
pub open spec fn grabs_made(exchanges: Seq<Exchange>) -> Seq<KeyGrab>
    decreases exchanges.len(),
{
    if exchanges.len() == 0 {
        Seq::empty()
    } else {
        let earlier = grabs_made(exchanges.drop_last());
        match (run(exchanges.drop_last()), exchanges.last().reply) {
            (GrabStep::GrabKey { grab, .. }, GrabReply::Done) => earlier.push(grab),
            _ => earlier,
        }
    }
}

/// The grabs that lie behind a loop that stands at `step`.
pub open spec fn grabs_behind(step: GrabStep) -> Seq<KeyGrab> {
    match step {
        GrabStep::GrabKey { nth, grab } => all_grabs(grab.grab_window, grab.key).take(nth as int),
        GrabStep::SelectEvents { root, tab_keycode, .. } => all_grabs(root, tab_keycode),
        GrabStep::Flush { root, tab_keycode } => all_grabs(root, tab_keycode),
        GrabStep::WaitForEvent { root, tab_keycode } => all_grabs(root, tab_keycode),
        _ => Seq::empty(),
    }
}

/// A loop that has not ended has made exactly the grabs that lie behind its step, each once and
/// in order. In particular a loop that waits has made all of them, for the key that it waits for.
#[verifier::spinoff_prover]
#[verifier::rlimit(60)]
pub proof fn waiting_loop_has_made_all_grabs(exchanges: Seq<Exchange>)
    requires
        is_conversation(exchanges),
        !(run(exchanges) is Finished),
    ensures
        is_step(run(exchanges)),
        grabs_made(exchanges) == grabs_behind(run(exchanges)),
        run(exchanges) matches GrabStep::WaitForEvent { root, tab_keycode } ==> grabs_made(
            exchanges,
        ) == all_grabs(root, tab_keycode),
    decreases exchanges.len(),
{
    if exchanges.len() > 0 {
        let earlier = exchanges.drop_last();
        waiting_loop_has_made_all_grabs(earlier);
        match (run(earlier), exchanges.last().reply) {
            (GrabStep::GrabKey { nth, grab }, GrabReply::Done) => {
                let all = all_grabs(grab.grab_window, grab.key);
                assert(all.take(nth as int).push(grab) =~= all.take(nth + 1));
                assert(all.take(all.len() as int) =~= all);
            },
            (GrabStep::GetKeyboardMapping { root, .. }, GrabReply::KeyboardMapping { .. }) => {
                if let GrabStep::GrabKey { grab, .. } = run(exchanges) {
                    assert(all_grabs(grab.grab_window, grab.key).take(0) =~= Seq::empty());
                }
            },
            _ => {},
        }
    }
}

/// The root window and the key that a loop standing at `step` is concerned with.
pub open spec fn target(step: GrabStep) -> Option<(u32, u8)> {
    match step {
        GrabStep::GrabKey { grab, .. } => Some((grab.grab_window, grab.key)),
        GrabStep::SelectEvents { root, tab_keycode, .. } => Some((root, tab_keycode)),
        GrabStep::Flush { root, tab_keycode } => Some((root, tab_keycode)),
        GrabStep::WaitForEvent { root, tab_keycode } => Some((root, tab_keycode)),
        _ => None,
    }
}

/// From the grabs on, a loop is concerned with the root window of the screen that it connected
/// to and with the key that the keyboard mapping gave for Tab.
pub proof fn loop_keeps_to_the_tab_key(exchanges: Seq<Exchange>)
    requires
        is_conversation(exchanges),
    ensures
        target(run(exchanges)) matches Some((root, key)) ==> {
            &&& exchanges.len() >= 2
            &&& exchanges[0].reply matches GrabReply::Connected { min_keycode, roots, screen, .. }
            &&& exchanges[1].reply matches GrabReply::KeyboardMapping { per_keycode, keysyms }
            &&& root == roots@[screen as int]
            &&& tab_keycode(min_keycode, per_keycode, keysyms@) == Some(key as int)
        },
        run(exchanges) matches GrabStep::GetKeyboardMapping { root, min_keycode: first, count }
            ==> {
            &&& exchanges.len() == 1
            &&& exchanges[0].reply matches GrabReply::Connected {
                min_keycode,
                max_keycode,
                roots,
                screen,
            }
            &&& root == roots@[screen as int]
            &&& first == min_keycode
            &&& first + count == max_keycode + 1
        },
        run(exchanges) is Connect ==> exchanges.len() == 0,
    decreases exchanges.len(),
{
    if exchanges.len() > 0 {
        loop_keeps_to_the_tab_key(exchanges.drop_last());
    }
}

/// A loop ends in good order exactly when a toggle was not taken: then, and at no other time.
pub proof fn loop_ends_when_nobody_receives(exchanges: Seq<Exchange>)
    requires
        is_conversation(exchanges),
    ensures
        run(exchanges) == GrabStep::Finished(Ok(())) <==> exchanges.len() > 0
            && exchanges.last().asked == Some(false),
        forall|i: int| 0 <= i < exchanges.len() - 1 ==> #[trigger] exchanges[i].asked != Some(false),
    decreases exchanges.len(),
{
    if exchanges.len() > 0 {
        let earlier = exchanges.drop_last();
        loop_ends_when_nobody_receives(earlier);
        assert forall|i: int| 0 <= i < exchanges.len() - 1 implies #[trigger] exchanges[i].asked
            != Some(false) by {
            assert(earlier[i] == exchanges[i]);
            if i == earlier.len() - 1 {
                assert(earlier.last() == exchanges[i]);
            }
        }
    }
}

/// The modifiers of a press of Shift+Tab while the given lock keys are active.
pub open spec fn pressed_modifiers(num_lock: bool, caps_lock: bool) -> u16 {
    let shift = MOD_SHIFT;
    let with_num_lock = if num_lock {
        shift | MOD_2
    } else {
        shift
    };
    if caps_lock {
        with_num_lock | MOD_LOCK
    } else {
        with_num_lock
    }
}

/// The hotkey is grabbed regardless of the lock keys' state.
pub proof fn hotkey_is_grabbed_regardless_of_lock_keys(
    root: u32,
    tab_keycode: u8,
    num_lock: bool,
    caps_lock: bool,
)
    ensures
        all_grabs(root, tab_keycode).contains(
            key_grab(root, pressed_modifiers(num_lock, caps_lock), tab_keycode),
        ),
{
    let nth: int = if num_lock && caps_lock {
        3
    } else if num_lock {
        1
    } else if caps_lock {
        2
    } else {
        0
    };
    assert(grab_modifiers()[nth] == pressed_modifiers(num_lock, caps_lock));
    assert(all_grabs(root, tab_keycode)[nth] == key_grab(
        root,
        pressed_modifiers(num_lock, caps_lock),
        tab_keycode,
    ));
}

/// At a loop that waits for the key `tab_keycode` a press is one of the hotkey exactly if it is of
/// that key. Nothing else that arrives there is, and nothing is before the loop waits.
pub proof fn only_presses_of_the_key_ask_for_a_toggle(
    root: u32,
    tab_keycode: u8,
    detail: u8,
    step: GrabStep,
    reply: GrabReply,
)
    ensures
        is_hotkey_press(
            GrabStep::WaitForEvent { root, tab_keycode },
            GrabReply::KeyPress { detail },
        ) <==> detail == tab_keycode,
        is_hotkey_press(step, reply) ==> step is WaitForEvent && reply is KeyPress,
{
}

/// The grabs are four, all of the same key on the same window, with Shift (1) and every
/// combination of Num Lock (16) and Caps Lock (2). The presses are reported to that window, and
/// none of the grabs holds events up.
pub proof fn grabs_are_of_shift_tab(root: u32, tab_keycode: u8)
    ensures
        all_grabs(root, tab_keycode).len() == 4,
        all_grabs(root, tab_keycode)[0].modifiers == 1,
        all_grabs(root, tab_keycode)[1].modifiers == 17,
        all_grabs(root, tab_keycode)[2].modifiers == 3,
        all_grabs(root, tab_keycode)[3].modifiers == 19,
        forall|i: int|
            0 <= i < 4 ==> {
                let grab = #[trigger] all_grabs(root, tab_keycode)[i];
                &&& grab.grab_window == root
                &&& grab.key == tab_keycode
                &&& !grab.owner_events
                &&& grab.pointer_mode == 1
                &&& grab.keyboard_mode == 1
            },
{
    assert(1u16 | 16u16 == 17) by (bit_vector);
    assert(1u16 | 2u16 == 3) by (bit_vector);
    assert(1u16 | 16u16 | 2u16 == 19) by (bit_vector);
}

/// The requests of a loop that has not ended, in terms of what the replies so far said. `first`
/// is where Tab first occurs in the keyboard mapping that was given: the key is as many keycodes
/// above the lowest as there are whole rows before it.
#[verifier::spinoff_prover]
#[verifier::rlimit(60)]
pub proof fn loop_makes_these_requests(exchanges: Seq<Exchange>, first: int)
    requires
        is_conversation(exchanges),
        !(run(exchanges) is Finished),
    ensures
        exchanges.len() == 0 ==> run(exchanges) == GrabStep::Connect,
        exchanges.len() > 0 ==> (exchanges[0].reply matches GrabReply::Connected {
            min_keycode,
            max_keycode,
            roots,
            screen,
        } && {
            let root = roots@[screen as int];
            &&& exchanges.len() == 1 ==> (run(exchanges) matches GrabStep::GetKeyboardMapping {
                root: asked_root,
                min_keycode: lowest,
                count,
            } && asked_root == root && lowest == min_keycode && count == max_keycode - min_keycode
                + 1)
            &&& exchanges.len() > 1 ==> (exchanges[1].reply matches GrabReply::KeyboardMapping {
                per_keycode,
                keysyms,
            } && {
                &&& per_keycode > 0
                &&& exists|i: int| 0 <= i < keysyms@.len() && #[trigger] keysyms@[i] == 0xff09
                &&& 0 <= first < keysyms@.len() && keysyms@[first] == 0xff09 && (forall|i: int|
                    0 <= i < first ==> keysyms@[i] != 0xff09) ==> {
                    let key = min_keycode + (first / per_keycode as int) % 256;
                    let n = exchanges.len();
                    &&& key <= 255
                    &&& n <= 5 ==> (run(exchanges) matches GrabStep::GrabKey { nth, grab } && {
                        &&& nth == n - 2
                        &&& grab.grab_window == root
                        &&& grab.key == key
                        &&& !grab.owner_events
                        &&& grab.pointer_mode == 1
                        &&& grab.keyboard_mode == 1
                        &&& grab.modifiers == if n == 2 {
                            1int
                        } else if n == 3 {
                            17
                        } else if n == 4 {
                            3
                        } else {
                            19
                        }
                    })
                    &&& n == 6 ==> run(exchanges) == (GrabStep::SelectEvents {
                        root,
                        event_mask: 1,
                        tab_keycode: key as u8,
                    })
                    &&& n == 7 ==> run(exchanges) == (GrabStep::Flush {
                        root,
                        tab_keycode: key as u8,
                    })
                    &&& n >= 8 ==> run(exchanges) == (GrabStep::WaitForEvent {
                        root,
                        tab_keycode: key as u8,
                    })
                }
            })
        }),
    decreases exchanges.len(),
{
    if exchanges.len() > 0 {
        let earlier = exchanges.drop_last();
        loop_makes_these_requests(earlier, first);
        if let GrabStep::GrabKey { grab, .. } = run(earlier) {
            grabs_are_of_shift_tab(grab.grab_window, grab.key);
        }
        if let GrabStep::GrabKey { grab, .. } = run(exchanges) {
            grabs_are_of_shift_tab(grab.grab_window, grab.key);
        }
        if exchanges.len() == 2 {
            if let GrabReply::Connected { min_keycode, .. } = exchanges[0].reply {
                if let GrabReply::KeyboardMapping { per_keycode, keysyms } = exchanges[1].reply {
                    lemma_mapping_with_tab(min_keycode, per_keycode, keysyms@, first);
                    lemma_first_grab(exchanges);
                }
            }
        }
    }
}

proof fn lemma_first_grab(exchanges: Seq<Exchange>)
    requires
        is_conversation(exchanges),
        exchanges.len() == 2,
        !(run(exchanges) is Finished),
    ensures
        exchanges[0].reply matches GrabReply::Connected { min_keycode, roots, screen, .. } && {
            exchanges[1].reply matches GrabReply::KeyboardMapping { per_keycode, keysyms } && {
                &&& tab_keycode(min_keycode, per_keycode, keysyms@) matches Some(key) && run(
                    exchanges,
                ) == grab_step(roots@[screen as int], key as u8, 0)
                &&& is_searchable(min_keycode, per_keycode, keysyms@)
            }
        },
{
    loop_keeps_to_the_tab_key(exchanges);
    loop_keeps_to_the_tab_key(exchanges.drop_last());
}

proof fn lemma_mapping_with_tab(
    min_keycode: u8,
    per_keycode: u8,
    keysyms: Seq<u32>,
    first: int,
)
    requires
        is_searchable(min_keycode, per_keycode, keysyms),
    ensures
        tab_keycode(min_keycode, per_keycode, keysyms) is Some ==> exists|i: int|
            0 <= i < keysyms.len() && #[trigger] keysyms[i] == 0xff09,
        0 <= first < keysyms.len() && keysyms[first] == 0xff09 && (forall|i: int|
            0 <= i < first ==> keysyms[i] != 0xff09) ==> tab_keycode(
            min_keycode,
            per_keycode,
            keysyms,
        ) == Some(min_keycode + (first / per_keycode as int) % 256),
{
    if forall|i: int| 0 <= i < keysyms.len() ==> keysyms[i] != 0xff09 {
        no_tab_no_keycode(min_keycode, per_keycode, keysyms);
    }
    if 0 <= first < keysyms.len() && keysyms[first] == 0xff09 && (forall|i: int|
        0 <= i < first ==> keysyms[i] != 0xff09) {
        first_tab_decides_the_keycode(min_keycode, per_keycode, keysyms, first);
    }
}

/// Over a whole conversation a toggle is asked for exactly by the presses of the key whose row of
/// the keyboard mapping is the first to hold Tab: `first` is where Tab first occurs in it.
pub proof fn each_press_of_tab_asks_for_one_toggle(exchanges: Seq<Exchange>, first: int, i: int)
    requires
        is_conversation(exchanges),
        0 <= i < exchanges.len(),
    ensures
        exchanges[i].asked is Some ==> exchanges[i].reply is KeyPress,
        exchanges[i].reply matches GrabReply::KeyPress { detail } ==> {
            &&& i >= 8
            &&& exchanges[0].reply matches GrabReply::Connected { min_keycode, .. }
            &&& exchanges[1].reply matches GrabReply::KeyboardMapping { per_keycode, keysyms }
            &&& exists|k: int| 0 <= k < keysyms@.len() && #[trigger] keysyms@[k] == 0xff09
            &&& 0 <= first < keysyms@.len() && keysyms@[first] == 0xff09 && (forall|k: int|
                0 <= k < first ==> keysyms@[k] != 0xff09) ==> (exchanges[i].asked is Some
                <==> detail == min_keycode + (first / per_keycode as int) % 256)
        },
    decreases exchanges.len(),
{
    let earlier = exchanges.drop_last();
    if i < earlier.len() {
        each_press_of_tab_asks_for_one_toggle(earlier, first, i);
    } else {
        loop_makes_these_requests(earlier, first);
        lemma_waiting_takes_eight(earlier);
    }
}

proof fn lemma_waiting_takes_eight(exchanges: Seq<Exchange>)
    requires
        is_conversation(exchanges),
    ensures
        run(exchanges) matches GrabStep::GrabKey { nth, .. } ==> exchanges.len() == nth + 2,
        run(exchanges) is SelectEvents ==> exchanges.len() == 6,
        run(exchanges) is Flush ==> exchanges.len() == 7,
        run(exchanges) is WaitForEvent ==> exchanges.len() >= 8,
    decreases exchanges.len(),
{
    if exchanges.len() > 0 {
        let earlier = exchanges.drop_last();
        lemma_waiting_takes_eight(earlier);
        loop_keeps_to_the_tab_key(earlier);
        if !(run(earlier) is Finished) {
            waiting_loop_has_made_all_grabs(earlier);
        }
    }
}

/// As many toggles are asked for as Tab is pressed: `key` is the keycode of the row of the
/// keyboard mapping that is the first to hold Tab, which first occurs there at `first`.
pub proof fn toggles_are_as_many_as_presses_of_tab(
    exchanges: Seq<Exchange>,
    first: int,
    key: int,
)
    requires
        is_conversation(exchanges),
        exchanges.len() >= 2,
        exchanges[0].reply matches GrabReply::Connected { min_keycode, .. } && (
        exchanges[1].reply matches GrabReply::KeyboardMapping { per_keycode, keysyms } && {
            &&& 0 <= first < keysyms@.len()
            &&& keysyms@[first] == 0xff09
            &&& forall|i: int| 0 <= i < first ==> keysyms@[i] != 0xff09
            &&& key == min_keycode + (first / per_keycode as int) % 256
        }),
    ensures
        exchanges.filter(|exchange: Exchange| exchange.asked is Some).len() == exchanges.filter(
            |exchange: Exchange|
                exchange.reply matches GrabReply::KeyPress { detail } && detail == key,
        ).len(),
{
    let asked = |exchange: Exchange| exchange.asked is Some;
    let pressed = |exchange: Exchange|
        exchange.reply matches GrabReply::KeyPress { detail } && detail == key;
    assert forall|i: int| 0 <= i < exchanges.len() implies asked(#[trigger] exchanges[i])
        == pressed(exchanges[i]) by {
        each_press_of_tab_asks_for_one_toggle(exchanges, first, i);
    }
    lemma_filters_agree(exchanges, asked, pressed);
}

proof fn lemma_filters_agree(
    exchanges: Seq<Exchange>,
    one: spec_fn(Exchange) -> bool,
    other: spec_fn(Exchange) -> bool,
)
    requires
        forall|i: int|
            0 <= i < exchanges.len() ==> one(#[trigger] exchanges[i]) == other(exchanges[i]),
    ensures
        exchanges.filter(one).len() == exchanges.filter(other).len(),
    decreases exchanges.len(),
{
    reveal(Seq::filter);
    if exchanges.len() > 0 {
        let earlier = exchanges.drop_last();
        assert forall|i: int| 0 <= i < earlier.len() implies one(#[trigger] earlier[i]) == other(
            earlier[i],
        ) by {
            assert(earlier[i] == exchanges[i]);
        }
        lemma_filters_agree(earlier, one, other);
        assert(one(exchanges[exchanges.len() - 1]) == other(exchanges[exchanges.len() - 1]));
    }
}

/// A request that failed ends the loop at once, and the error says which it was, by its place
/// among the requests, and carries what the connection reported. One that could not be sent ends
/// it with nothing but that report.
pub proof fn failed_request_ends_the_loop(exchanges: Seq<Exchange>, cause: String)
    requires
        is_conversation(exchanges),
        exchanges.len() > 0,
    ensures
        exchanges.last().reply == GrabReply::Failed(cause) ==> (
        run(exchanges) matches GrabStep::Finished(Err(error)) && {
            let n = exchanges.len();
            &&& n == 1 ==> error == GrabError::Connect(cause)
            &&& n == 2 ==> error == GrabError::KeyboardMapping(cause)
            &&& n == 3 ==> error == GrabError::Grab(cause)
            &&& 4 <= n <= 6 ==> error == GrabError::GrabExtraModifier(cause)
            &&& n == 7 ==> error == GrabError::WindowAttributes(cause)
            &&& n == 8 ==> error == GrabError::Flush(cause)
            &&& n >= 9 ==> error == GrabError::WaitForEvent(cause)
        }),
        exchanges.last().reply == GrabReply::NotSent(cause) ==> {
            &&& run(exchanges) == GrabStep::Finished(Err(GrabError::NotSent(cause)))
            &&& 2 <= exchanges.len() <= 7
        },
        run(exchanges) matches GrabStep::Finished(Err(error)) ==> match exchanges.last().reply {
            GrabReply::Failed(_) => true,
            GrabReply::NotSent(_) => true,
            GrabReply::KeyboardMapping { keysyms, .. } => {
                &&& error == GrabError::NoTabKeycode
                &&& forall|i: int| 0 <= i < keysyms@.len() ==> #[trigger] keysyms@[i] != 0xff09
            },
            _ => false,
        },
{
    let earlier = exchanges.drop_last();
    lemma_waiting_takes_eight(earlier);
    loop_keeps_to_the_tab_key(earlier);
    if !(run(earlier) is Finished) {
        waiting_loop_has_made_all_grabs(earlier);
    }
    if let GrabReply::KeyboardMapping { per_keycode, keysyms } = exchanges.last().reply {
        if let GrabStep::GetKeyboardMapping { min_keycode, .. } = run(earlier) {
            assert forall|i: int|
                run(exchanges) is Finished && 0 <= i
                    < keysyms@.len() implies #[trigger] keysyms@[i] != 0xff09 by {
                tab_row_is_the_first_with_tab(keysyms@, per_keycode as int);
                assert(keysyms@.contains(keysyms@[i]));
            }
        }
    }
}

/// At each request exactly the replies to that request are taken, whatever they say, but for what
/// no display says of itself: a screen that is not there, or keycodes that are none or more than
/// a byte counts; and a keyboard mapping has to have rows, and its first Tab a keycode that fits
/// in a byte. None is taken once the loop has ended.
pub proof fn replies_to_the_request_are_taken(step: GrabStep, reply: GrabReply)
    ensures
        reply matches GrabReply::Connected { min_keycode, max_keycode, roots, screen } ==> (fits(
            step,
            reply,
        ) <==> step is Connect && screen < roots@.len() && min_keycode <= max_keycode
            && max_keycode - min_keycode + 1 <= 255),
        reply matches GrabReply::KeyboardMapping { per_keycode, keysyms } ==> (fits(step, reply)
            <==> (step matches GrabStep::GetKeyboardMapping { min_keycode, .. } && per_keycode > 0
            && (forall|first: int|
            0 <= first < keysyms@.len() && #[trigger] keysyms@[first] == 0xff09 && (forall|i: int|
                0 <= i < first ==> keysyms@[i] != 0xff09) ==> min_keycode + (first
                / per_keycode as int) % 256 <= 255))),
        reply is Done ==> (fits(step, reply) <==> step is GrabKey || step is SelectEvents || step
            is Flush),
        reply is NotSent ==> (fits(step, reply) <==> step is GetKeyboardMapping || step is GrabKey
            || step is SelectEvents),
        reply is Failed ==> (fits(step, reply) <==> !(step is Finished)),
        reply is KeyPress ==> (fits(step, reply) <==> step is WaitForEvent),
        reply is OtherEvent ==> (fits(step, reply) <==> step is WaitForEvent),
{
    if let GrabReply::KeyboardMapping { per_keycode, keysyms } = reply {
        if let GrabStep::GetKeyboardMapping { min_keycode, .. } = step {
            keysyms@.index_of_first_ensures(XK_TAB);
            assert forall|first: int|
                per_keycode > 0 && 0 <= first < keysyms@.len() && #[trigger] keysyms@[first]
                    == 0xff09 && (forall|i: int|
                    0 <= i < first ==> keysyms@[i] != 0xff09) implies tab_keycode(
                min_keycode,
                per_keycode,
                keysyms@,
            ) == Some(min_keycode + (first / per_keycode as int) % 256) by {
                first_tab_decides_the_keycode(min_keycode, per_keycode, keysyms@, first);
            }
        }
    }
}

/// The text of an error is what failed and then, behind a colon, what the connection reported,
/// whatever that is; a request that was not sent is told by that report alone.
pub proof fn error_texts_end_in_the_report(cause: String)
    ensures
        GrabError::Connect(cause).text() == "Failed to connect to X11 display: "@ + cause@,
        GrabError::NotSent(cause).text() == cause@,
        GrabError::KeyboardMapping(cause).text() == "GetKeyboardMapping failed: "@ + cause@,
        GrabError::Grab(cause).text() == "XGrabKey failed: "@ + cause@,
        GrabError::GrabExtraModifier(cause).text() == "XGrabKey (extra mod) failed: "@ + cause@,
        GrabError::WindowAttributes(cause).text() == "ChangeWindowAttributes failed: "@ + cause@,
        GrabError::Flush(cause).text() == "X11 flush failed: "@ + cause@,
        GrabError::WaitForEvent(cause).text() == "X11 wait_for_event failed: "@ + cause@,
{
}

} // verus!
