//! Bringing the overlay up once the overlay window exists.
use crate::error::HotkeyError;
use crate::overlay::{toggles_alternate, FrontApplication, OverlayManager, OverlayState};
use crate::toggle_channel::{connected, sends, unbounded_channel};
use futures::channel::mpsc::{UnboundedReceiver, UnboundedSender};
use vstd::prelude::*;
use vstd::string::*;

verus! {

/// The keys that toggle the overlay while the own application is in front, where the
/// system-wide hotkey does not fire.
pub const TOGGLE_BINDING: &'static str = "shift-tab";

/// The two ends of the channel that toggles are asked for on.
pub struct Startup {
    /// For the manager's hotkey and status item.
    pub sender: UnboundedSender<()>,
    /// For the task that toggles the overlay.
    pub receiver: UnboundedReceiver<()>,
}

/// An action that keys can be bound to.
#[derive(Debug, Clone, Copy, PartialEq, Eq, Structural)]
pub enum KeyAction {
    /// Shows a hidden overlay, hides a shown one.
    ToggleGlobalOverlay,
}

/// One thing to set up in the application.
#[derive(Debug, Clone, Copy, PartialEq, Eq)]
pub enum WiringStep {
    /// Store the manager where the action's handler finds it.
    StoreManager,
    /// Bind these keys to this action in this context; in every one, if there is none.
    BindKeys { keys: &'static str, action: KeyAction, context: Option<&'static str> },
    /// Have this action toggle the stored manager, if there is one.
    HandleAction(KeyAction),
    /// Start the task that toggles once for each message until the channel closes.
    SpawnToggleTask,
}

/// An overlay that is ready to be wired into the application.
pub struct Wiring<W, S, H> {
    /// The manager, to be shared by the action's handler and the task.
    pub manager: OverlayManager<W, S, H>,
    /// Where the task's messages arrive.
    pub receiver: UnboundedReceiver<()>,
    /// What to set up, in order.
    pub steps: Vec<WiringStep>,
}

/// Starts bringing the overlay up: opens the channel that toggles are asked for on. To be called
/// once.
pub fn init() -> (startup: Startup)
    ensures
        connected(startup.sender, startup.receiver),
        sends(startup.sender) == Seq::<bool>::empty(),
{
    let (sender, receiver) = unbounded_channel();
    Startup { sender, receiver }
}

/// Goes on once it is known whether there is a manager. Without one nothing is set up.
pub fn wire<W, S, H>(
    receiver: UnboundedReceiver<()>,
    manager: Result<OverlayManager<W, S, H>, HotkeyError>,
) -> (wiring: Result<Wiring<W, S, H>, HotkeyError>)
    ensures
        match (wiring, manager) {
            (Ok(wiring), Ok(manager)) => {
                &&& wiring.manager == manager
                &&& wiring.receiver == receiver
                &&& wiring.steps@ == seq![
                    WiringStep::StoreManager,
                    WiringStep::BindKeys {
                        keys: TOGGLE_BINDING,
                        action: KeyAction::ToggleGlobalOverlay,
                        context: None,
                    },
                    WiringStep::HandleAction(KeyAction::ToggleGlobalOverlay),
                    WiringStep::SpawnToggleTask,
                ]
            },
            (Err(error), Err(cause)) => error == cause,
            _ => false,
        },
{
    match manager {
        Ok(manager) => {
            let mut steps: Vec<WiringStep> = Vec::new();
            steps.push(WiringStep::StoreManager);
            steps.push(
                WiringStep::BindKeys {
                    keys: TOGGLE_BINDING,
                    action: KeyAction::ToggleGlobalOverlay,
                    context: None,
                },
            );
            steps.push(WiringStep::HandleAction(KeyAction::ToggleGlobalOverlay));
            steps.push(WiringStep::SpawnToggleTask);
            Ok(Wiring { manager, receiver, steps })
        },
        Err(error) => Err(error),
    }
}

/// What to log when there is no manager for this reason.
pub fn failure_report(error: &HotkeyError) -> (text: String)
    ensures
        text@ == "Failed to register global overlay hotkey: "@ + error.text(),
{
    "Failed to register global overlay hotkey: ".to_owned().concat(error.message().as_str())
}

/// What the task does next.
#[derive(Debug, Clone, Copy, PartialEq, Eq, Structural)]
pub enum TaskStep {
    /// Toggle the manager once, then wait for the next message.
    Toggle,
    /// End: the channel is closed.
    Finish,
}

/// One toggle for each message, and the end when there will be none any more.
pub open spec fn task_step(message: Option<()>) -> TaskStep {
    if message is Some {
        TaskStep::Toggle
    } else {
        TaskStep::Finish
    }
}

/// What the task does with what the channel yields.
pub fn on_message(message: Option<()>) -> (step: TaskStep)
    ensures
        step == task_step(message),
        message is Some <==> step is Toggle,
        message is None <==> step is Finish,
{
    match message {
        Some(()) => TaskStep::Toggle,
        None => TaskStep::Finish,
    }
}

/// What the toggle action's handler does.
#[derive(Debug, Clone, Copy, PartialEq, Eq, Structural)]
pub enum ActionStep {
    /// Toggle the stored manager once.
    Toggle,
    /// Nothing: no manager is stored.
    Ignore,
}

/// One toggle, if there is a manager to toggle.
pub open spec fn action_step(manager_stored: bool) -> ActionStep {
    if manager_stored {
        ActionStep::Toggle
    } else {
        ActionStep::Ignore
    }
}

/// What the toggle action's handler does, with or without a stored manager.
pub fn on_toggle_action(manager_stored: bool) -> (step: ActionStep)
    ensures
        step == action_step(manager_stored),
        manager_stored <==> step is Toggle,
        !manager_stored <==> step is Ignore,
{
    if manager_stored {
        ActionStep::Toggle
    } else {
        ActionStep::Ignore
    }
}

/// Something that may toggle the overlay, with the frontmost application of that moment.
pub enum ToggleEvent {
    /// The channel yielded this to the task.
    Message(Option<()>, Option<FrontApplication>),
    /// The toggle action was dispatched; whether a manager was stored.
    Action(bool, Option<FrontApplication>),
}

impl ToggleEvent {
    /// Whether this is a message, not the end of the channel.
    pub open spec fn is_message(self) -> bool {
        self matches ToggleEvent::Message(message, _) && message is Some
    }

    /// Whether this is an action that finds a manager.
    pub open spec fn is_action(self) -> bool {
        self matches ToggleEvent::Action(stored, _) && stored
    }

    /// Whether the task or the action's handler toggles the manager upon this.
    pub open spec fn toggles(self) -> bool {
        match self {
            ToggleEvent::Message(message, _) => task_step(message) is Toggle,
            ToggleEvent::Action(manager_stored, _) => action_step(manager_stored) is Toggle,
        }
    }

    /// The frontmost application of that moment.
    pub open spec fn front_app(self) -> Option<FrontApplication> {
        match self {
            ToggleEvent::Message(_, front_app) => front_app,
            ToggleEvent::Action(_, front_app) => front_app,
        }
    }
}

/// The state of the one manager, which starts out hidden, after `events`.
pub open spec fn state_after(events: Seq<ToggleEvent>) -> OverlayState
    decreases events.len(),
{
    if events.len() == 0 {
        OverlayState::initial()
    } else {
        let before = state_after(events.drop_last());
        if events.last().toggles() {
            before.toggled(events.last().front_app())
        } else {
            before
        }
    }
}

/// How many of `events` are messages.
pub open spec fn messages(events: Seq<ToggleEvent>) -> nat {
    events.filter(|event: ToggleEvent| event.is_message()).len()
}

/// How many of `events` are actions that find a manager.
pub open spec fn actions(events: Seq<ToggleEvent>) -> nat {
    events.filter(|event: ToggleEvent| event.is_action()).len()
}

/// Each message and each action is one toggle of the one manager, in whatever order they come:
/// none is merged with another or dropped. So the overlay is shown exactly if their number, both
/// together, is odd.
pub proof fn each_message_and_each_action_toggles_once(events: Seq<ToggleEvent>)
    ensures
        exists|front_apps: Seq<Option<FrontApplication>>|
            front_apps.len() == messages(events) + actions(events) && state_after(events)
                == #[trigger] OverlayState::initial().after(front_apps),
        state_after(events).is_visible == ((messages(events) + actions(events)) % 2 == 1),
{
    let front_apps = toggles_made(events);
    lemma_toggles_made(events);
    toggles_alternate(OverlayState::initial(), front_apps);
}

/// The frontmost application at each toggle that `events` make, in order.
spec fn toggles_made(events: Seq<ToggleEvent>) -> Seq<Option<FrontApplication>>
    decreases events.len(),
{
    if events.len() == 0 {
        Seq::empty()
    } else if events.last().toggles() {
        toggles_made(events.drop_last()).push(events.last().front_app())
    } else {
        toggles_made(events.drop_last())
    }
}

proof fn lemma_toggles_made(events: Seq<ToggleEvent>)
    ensures
        toggles_made(events).len() == messages(events) + actions(events),
        state_after(events) == OverlayState::initial().after(toggles_made(events)),
    decreases events.len(),
{
    reveal(Seq::filter);
    if events.len() > 0 {
        let earlier = events.drop_last();
        lemma_toggles_made(earlier);
        if events.last().toggles() {
            assert(toggles_made(events).drop_last() =~= toggles_made(earlier));
        }
    }
}

/// The task toggles upon a message and upon nothing else, and ends when the channel does; the
/// action's handler toggles exactly if a manager is stored.
pub proof fn only_messages_and_handled_actions_toggle(
    message: Option<()>,
    manager_stored: bool,
    front_app: Option<FrontApplication>,
)
    ensures
        ToggleEvent::Message(message, front_app).toggles() <==> message is Some,
        task_step(message) is Finish <==> message is None,
        ToggleEvent::Action(manager_stored, front_app).toggles() <==> manager_stored,
        action_step(manager_stored) is Ignore <==> !manager_stored,
{
}

} // verus!
