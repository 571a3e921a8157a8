//! The item in the macOS status bar that asks for a toggle when it is clicked.
use crate::macos_hotkey::Resource;
use crate::toggle_channel::{same_channel, ToggleSender};
use futures::channel::mpsc::UnboundedSender;
use vstd::pervasive::unreached;
use vstd::prelude::*;

verus! {

/// The Objective-C class whose instances take the clicks of the status item.
pub const TARGET_CLASS: &'static str = "GlobalOverlayStatusItemHandler";

/// The class that it extends.
pub const TARGET_SUPERCLASS: &'static str = "NSObject";

/// Its instance variable, which points to the handle that toggles are asked for through.
pub const SENDER_IVAR: &'static str = "sender_ptr";

/// The selector of its method that takes the clicks.
pub const CLICK_SELECTOR: &'static str = "clicked:";

/// `NSVariableStatusItemLength`: the item is as wide as what it shows.
pub const VARIABLE_LENGTH: i32 = -1;

/// What the status item shows.
pub const TITLE: &'static str = "Z";

/// The click handler: asks for one toggle.
pub fn handle_click(sender: &mut ToggleSender)
    ensures
        final(sender).asked_once_since(old(sender)),
        final(sender).outcomes().len() == old(sender).outcomes().len() + 1,
{
    let _ = sender.send();
}

/// An item in the status bar, the object that its clicks go to, and the boxed handle that this
/// object asks for toggles through.
#[derive(Debug, Clone, Copy, PartialEq, Eq, Structural)]
pub struct StatusItem {
    pub item: usize,
    pub target: usize,
    pub sender_ptr: usize,
}

/// Where the making of a status item stands: the request that is to be made next.
#[derive(Debug, Clone, Copy, PartialEq, Eq)]
pub enum StatusItemStep {
    /// Put the handle that clicks ask for toggles through on the heap.
    BoxSender,
    /// Look the class of this name up.
    LookUpClass { sender_ptr: usize, name: &'static str },
    /// Declare and register the class of this name, which extends `superclass`, with a pointer
    /// `ivar` and with the click handler as its method `selector`.
    DeclareClass {
        sender_ptr: usize,
        name: &'static str,
        superclass: &'static str,
        ivar: &'static str,
        selector: &'static str,
    },
    /// Make an instance of `class` and point its `ivar` to the sender.
    CreateTarget { sender_ptr: usize, class: usize, ivar: &'static str },
    /// Make an item of this length in the system's status bar.
    CreateItem { sender_ptr: usize, target: usize, length: i32 },
    /// Retain the item.
    RetainItem(StatusItem),
    /// Give the item's button its title.
    SetTitle { parts: StatusItem, title: &'static str },
    /// Retain the target.
    RetainTarget(StatusItem),
    /// Make the target that of the item's button.
    SetTarget(StatusItem),
    /// Make this selector the action of the item's button.
    SetAction { parts: StatusItem, action: &'static str },
    /// The item is there.
    Created(StatusItem),
}

/// What came of a request.
#[derive(Debug, Clone, Copy, PartialEq, Eq)]
pub enum StatusItemReply {
    SenderBoxed(usize),
    ClassLookedUp(Option<usize>),
    ClassDeclared(usize),
    TargetCreated(usize),
    ItemCreated(usize),
    Done,
}

impl StatusItemStep {
    /// Whether `reply` can be what came of the request of this step. A box is never null.
    pub open spec fn fits(self, reply: StatusItemReply) -> bool {
        match self {
            StatusItemStep::BoxSender => {
                reply matches StatusItemReply::SenderBoxed(sender_ptr) && sender_ptr != 0
            },
            StatusItemStep::LookUpClass { .. } => reply is ClassLookedUp,
            StatusItemStep::DeclareClass { .. } => reply is ClassDeclared,
            StatusItemStep::CreateTarget { .. } => reply is TargetCreated,
            StatusItemStep::CreateItem { .. } => reply is ItemCreated,
            StatusItemStep::Created(_) => false,
            _ => reply is Done,
        }
    }

    /// The step after this one when `reply` came of its request. The class is declared only
    /// where it is not there yet.
    pub open spec fn next(self, reply: StatusItemReply) -> StatusItemStep {
        match (self, reply) {
            (StatusItemStep::BoxSender, StatusItemReply::SenderBoxed(sender_ptr)) => {
                StatusItemStep::LookUpClass { sender_ptr, name: TARGET_CLASS }
            },
            (
                StatusItemStep::LookUpClass { sender_ptr, .. },
                StatusItemReply::ClassLookedUp(None),
            ) => StatusItemStep::DeclareClass {
                sender_ptr,
                name: TARGET_CLASS,
                superclass: TARGET_SUPERCLASS,
                ivar: SENDER_IVAR,
                selector: CLICK_SELECTOR,
            },
            (
                StatusItemStep::LookUpClass { sender_ptr, .. },
                StatusItemReply::ClassLookedUp(Some(class)),
            ) => StatusItemStep::CreateTarget { sender_ptr, class, ivar: SENDER_IVAR },
            (
                StatusItemStep::DeclareClass { sender_ptr, .. },
                StatusItemReply::ClassDeclared(class),
            ) => StatusItemStep::CreateTarget { sender_ptr, class, ivar: SENDER_IVAR },
            (
                StatusItemStep::CreateTarget { sender_ptr, .. },
                StatusItemReply::TargetCreated(target),
            ) => StatusItemStep::CreateItem { sender_ptr, target, length: VARIABLE_LENGTH },
            (
                StatusItemStep::CreateItem { sender_ptr, target, .. },
                StatusItemReply::ItemCreated(item),
            ) => StatusItemStep::RetainItem(StatusItem { item, target, sender_ptr }),
            (StatusItemStep::RetainItem(parts), _) => StatusItemStep::SetTitle {
                parts,
                title: TITLE,
            },
            (StatusItemStep::SetTitle { parts, .. }, _) => StatusItemStep::RetainTarget(parts),
            (StatusItemStep::RetainTarget(parts), _) => StatusItemStep::SetTarget(parts),
            (StatusItemStep::SetTarget(parts), _) => StatusItemStep::SetAction {
                parts,
                action: CLICK_SELECTOR,
            },
            (StatusItemStep::SetAction { parts, .. }, _) => StatusItemStep::Created(parts),
            _ => self,
        }
    }

    /// Says whether [`StatusItemStep::advance`] takes this reply now.
    pub fn accepts(self, reply: StatusItemReply) -> (accepted: bool)
        ensures
            accepted == self.fits(reply),
    {
        match (self, reply) {
            (StatusItemStep::BoxSender, StatusItemReply::SenderBoxed(sender_ptr)) => {
                sender_ptr != 0
            },
            (StatusItemStep::LookUpClass { .. }, StatusItemReply::ClassLookedUp(_)) => true,
            (StatusItemStep::DeclareClass { .. }, StatusItemReply::ClassDeclared(_)) => true,
            (StatusItemStep::CreateTarget { .. }, StatusItemReply::TargetCreated(_)) => true,
            (StatusItemStep::CreateItem { .. }, StatusItemReply::ItemCreated(_)) => true,
            (StatusItemStep::RetainItem(_), StatusItemReply::Done) => true,
            (StatusItemStep::SetTitle { .. }, StatusItemReply::Done) => true,
            (StatusItemStep::RetainTarget(_), StatusItemReply::Done) => true,
            (StatusItemStep::SetTarget(_), StatusItemReply::Done) => true,
            (StatusItemStep::SetAction { .. }, StatusItemReply::Done) => true,
            _ => false,
        }
    }

    /// Takes the reply to this step's request and goes on to the next.
    pub fn advance(self, reply: StatusItemReply) -> (next: StatusItemStep)
        requires
            self.fits(reply),
        ensures
            next == self.next(reply),
    {
        match (self, reply) {
            (StatusItemStep::BoxSender, StatusItemReply::SenderBoxed(sender_ptr)) => {
                StatusItemStep::LookUpClass { sender_ptr, name: TARGET_CLASS }
            },
            (
                StatusItemStep::LookUpClass { sender_ptr, .. },
                StatusItemReply::ClassLookedUp(found),
            ) => match found {
                None => StatusItemStep::DeclareClass {
                    sender_ptr,
                    name: TARGET_CLASS,
                    superclass: TARGET_SUPERCLASS,
                    ivar: SENDER_IVAR,
                    selector: CLICK_SELECTOR,
                },
                Some(class) => StatusItemStep::CreateTarget {
                    sender_ptr,
                    class,
                    ivar: SENDER_IVAR,
                },
            },
            (
                StatusItemStep::DeclareClass { sender_ptr, .. },
                StatusItemReply::ClassDeclared(class),
            ) => StatusItemStep::CreateTarget { sender_ptr, class, ivar: SENDER_IVAR },
            (
                StatusItemStep::CreateTarget { sender_ptr, .. },
                StatusItemReply::TargetCreated(target),
            ) => StatusItemStep::CreateItem { sender_ptr, target, length: VARIABLE_LENGTH },
            (
                StatusItemStep::CreateItem { sender_ptr, target, .. },
                StatusItemReply::ItemCreated(item),
            ) => StatusItemStep::RetainItem(StatusItem { item, target, sender_ptr }),
            (StatusItemStep::RetainItem(parts), _) => StatusItemStep::SetTitle {
                parts,
                title: TITLE,
            },
            (StatusItemStep::SetTitle { parts, .. }, _) => StatusItemStep::RetainTarget(parts),
            (StatusItemStep::RetainTarget(parts), _) => StatusItemStep::SetTarget(parts),
            (StatusItemStep::SetTarget(parts), _) => StatusItemStep::SetAction {
                parts,
                action: CLICK_SELECTOR,
            },
            (StatusItemStep::SetAction { parts, .. }, _) => StatusItemStep::Created(parts),
            _ => unreached(),
        }
    }
}

impl StatusItem {
    /// Starts the making of a status item. The first part of the answer is the handle that its
    /// clicks ask for toggles through; nothing is asked for by this call.
    pub fn new(sender: UnboundedSender<()>) -> (started: (ToggleSender, StatusItemStep))
        ensures
            started.0.handle() == sender,
            started.1 == StatusItemStep::BoxSender,
    {
        (ToggleSender::new(sender), StatusItemStep::BoxSender)
    }

    /// Starts the making of a status item beside a hotkey that `sender` goes to: its clicks and
    /// the hotkey ask for toggles on one channel. Nothing is asked for by this call.
    pub fn beside(sender: &UnboundedSender<()>) -> (started: (ToggleSender, StatusItemStep))
        ensures
            same_channel(started.0.handle(), *sender),
            started.0.outcomes() == Seq::<bool>::empty(),
            started.1 == StatusItemStep::BoxSender,
    {
        (ToggleSender::another_of(sender), StatusItemStep::BoxSender)
    }

    /// What to give back when the item goes, in order. The target is small and made once; it is
    /// not given back.
    pub fn release(&self) -> (released: Vec<Resource>)
        ensures
            released@ == seq![
                Resource::StatusItem(self.item),
                Resource::Sender(self.sender_ptr),
            ],
    {
        let mut released: Vec<Resource> = Vec::new();
        released.push(Resource::StatusItem(self.item));
        released.push(Resource::Sender(self.sender_ptr));
        assert(released@ =~= seq![
            Resource::StatusItem(self.item),
            Resource::Sender(self.sender_ptr),
        ]);
        released
    }
}

/// The step that the making of a status item reaches by `replies`.
pub open spec fn run(replies: Seq<StatusItemReply>) -> StatusItemStep
    decreases replies.len(),
{
    if replies.len() == 0 {
        StatusItemStep::BoxSender
    } else {
        run(replies.drop_last()).next(replies.last())
    }
}

/// Whether the making of a status item can have had these replies since it started.
pub open spec fn is_conversation(replies: Seq<StatusItemReply>) -> bool
    decreases replies.len(),
{
    replies.len() == 0 || {
        &&& is_conversation(replies.drop_last())
        &&& run(replies.drop_last()).fits(replies.last())
    }
}

/// The requests made in the course of `replies`, in order.
pub open spec fn requests(replies: Seq<StatusItemReply>) -> Seq<StatusItemStep>
    decreases replies.len(),
{
    if replies.len() == 0 {
        Seq::empty()
    } else {
        requests(replies.drop_last()).push(run(replies.drop_last()))
    }
}

/// The requests that look the target's class up and, where it is `missing`, declare it.
pub open spec fn class_requests(sender_ptr: usize, missing: bool) -> Seq<StatusItemStep> {
    let look_up = seq![
        StatusItemStep::BoxSender,
        StatusItemStep::LookUpClass { sender_ptr, name: TARGET_CLASS },
    ];
    if missing {
        look_up.push(
            StatusItemStep::DeclareClass {
                sender_ptr,
                name: TARGET_CLASS,
                superclass: TARGET_SUPERCLASS,
                ivar: SENDER_IVAR,
                selector: CLICK_SELECTOR,
            },
        )
    } else {
        look_up
    }
}

/// The requests that make a status item of these parts, once its target's class is known.
pub open spec fn item_requests(parts: StatusItem, class: usize) -> Seq<StatusItemStep> {
    seq![
        StatusItemStep::CreateTarget { sender_ptr: parts.sender_ptr, class, ivar: SENDER_IVAR },
        StatusItemStep::CreateItem {
            sender_ptr: parts.sender_ptr,
            target: parts.target,
            length: VARIABLE_LENGTH,
        },
        StatusItemStep::RetainItem(parts),
        StatusItemStep::SetTitle { parts, title: TITLE },
        StatusItemStep::RetainTarget(parts),
        StatusItemStep::SetTarget(parts),
        StatusItemStep::SetAction { parts, action: CLICK_SELECTOR },
    ]
}

/// The parts of a status item that are known at `step`; the others are filled in with zero.
spec fn parts_known(step: StatusItemStep) -> StatusItem {
    match step {
        StatusItemStep::BoxSender => StatusItem { item: 0, target: 0, sender_ptr: 0 },
        StatusItemStep::LookUpClass { sender_ptr, .. } => StatusItem {
            item: 0,
            target: 0,
            sender_ptr,
        },
        StatusItemStep::DeclareClass { sender_ptr, .. } => StatusItem {
            item: 0,
            target: 0,
            sender_ptr,
        },
        StatusItemStep::CreateTarget { sender_ptr, .. } => StatusItem {
            item: 0,
            target: 0,
            sender_ptr,
        },
        StatusItemStep::CreateItem { sender_ptr, target, .. } => StatusItem {
            item: 0,
            target,
            sender_ptr,
        },
        StatusItemStep::RetainItem(parts) => parts,
        StatusItemStep::SetTitle { parts, .. } => parts,
        StatusItemStep::RetainTarget(parts) => parts,
        StatusItemStep::SetTarget(parts) => parts,
        StatusItemStep::SetAction { parts, .. } => parts,
        StatusItemStep::Created(parts) => parts,
    }
}

/// How many of the requests of [`item_requests`] lie behind `step`; less than zero if the class
/// is not known yet.
spec fn item_requests_behind(step: StatusItemStep) -> int {
    match step {
        StatusItemStep::BoxSender => -3,
        StatusItemStep::LookUpClass { .. } => -2,
        StatusItemStep::DeclareClass { .. } => -1,
        StatusItemStep::CreateTarget { .. } => 0,
        StatusItemStep::CreateItem { .. } => 1,
        StatusItemStep::RetainItem(_) => 2,
        StatusItemStep::SetTitle { .. } => 3,
        StatusItemStep::RetainTarget(_) => 4,
        StatusItemStep::SetTarget(_) => 5,
        StatusItemStep::SetAction { .. } => 6,
        StatusItemStep::Created(_) => 7,
    }
}

spec fn requests_are_those_behind(
    replies: Seq<StatusItemReply>,
    missing: bool,
    class: usize,
) -> bool {
    let step = run(replies);
    let parts = parts_known(step);
    &&& requests(replies) == class_requests(parts.sender_ptr, missing) + item_requests(
        parts,
        class,
    ).take(item_requests_behind(step))
    &&& step matches StatusItemStep::CreateTarget { class: at, ivar, .. } ==> at == class && ivar
        == SENDER_IVAR
    &&& step matches StatusItemStep::CreateItem { length, .. } ==> length == VARIABLE_LENGTH
    &&& step matches StatusItemStep::SetTitle { title, .. } ==> title == TITLE
    &&& step matches StatusItemStep::SetAction { action, .. } ==> action == CLICK_SELECTOR
}

proof fn lemma_requests_behind(replies: Seq<StatusItemReply>) -> (of: (bool, usize))
    requires
        is_conversation(replies),
        item_requests_behind(run(replies)) >= 0,
    ensures
        requests_are_those_behind(replies, of.0, of.1),
        of.0 <==> replies[1] == StatusItemReply::ClassLookedUp(None),
        replies.len() >= 3 - (if of.0 {
            0int
        } else {
            1int
        }),
    decreases replies.len(),
{
    let earlier = replies.drop_last();
    let before = run(earlier);
    let step = run(replies);
    let parts = parts_known(step);
    if let StatusItemStep::CreateTarget { class, .. } = step {
        lemma_class_requests(earlier);
        let missing = before is DeclareClass;
        assert(item_requests(parts, class).take(0) =~= Seq::empty());
        assert(requests(replies) =~= class_requests(parts.sender_ptr, missing) + item_requests(
            parts,
            class,
        ).take(0));
        (missing, class)
    } else {
        let of = lemma_requests_behind(earlier);
        let n = item_requests_behind(before);
        let known = parts_known(before);
        assert(item_requests(parts, of.1).take(n + 1) =~= item_requests(known, of.1).take(n).push(
            before,
        ));
        assert(requests(replies) =~= class_requests(parts.sender_ptr, of.0) + item_requests(
            parts,
            of.1,
        ).take(n + 1));
        of
    }
}

proof fn lemma_class_requests(replies: Seq<StatusItemReply>)
    requires
        is_conversation(replies),
        item_requests_behind(run(replies)) < 0,
    ensures
        match run(replies) {
            StatusItemStep::BoxSender => replies.len() == 0 && requests(replies) == Seq::<
                StatusItemStep,
            >::empty(),
            StatusItemStep::LookUpClass { sender_ptr, name } => {
                &&& replies.len() == 1
                &&& name == TARGET_CLASS
                &&& requests(replies) == seq![StatusItemStep::BoxSender]
            },
            StatusItemStep::DeclareClass { sender_ptr, .. } => {
                &&& replies.len() == 2
                &&& replies[1] == StatusItemReply::ClassLookedUp(None)
                &&& requests(replies).push(run(replies)) == class_requests(sender_ptr, true)
            },
            _ => true,
        },
    decreases replies.len(),
{
    if replies.len() > 0 {
        lemma_class_requests(replies.drop_last());
        if run(replies) is LookUpClass {
            assert(requests(replies) =~= seq![StatusItemStep::BoxSender]);
        }
        if let StatusItemStep::DeclareClass { sender_ptr, .. } = run(replies) {
            assert(requests(replies).push(run(replies)) =~= class_requests(sender_ptr, true));
        }
    }
}

/// A status item is made by exactly these requests, in order: its target's class is looked up,
/// and declared where it is missing; then the target is made, pointing to the boxed handle; then
/// the item, of variable length, which is retained once, shows its title, and sends its clicks to
/// the target, which is retained once too. The item's clicks go to the handle that was boxed, and
/// that is never null.
pub proof fn status_item_is_made_by_these_requests(
    replies: Seq<StatusItemReply>,
    parts: StatusItem,
)
    requires
        is_conversation(replies),
        run(replies) == StatusItemStep::Created(parts),
    ensures
        exists|class: usize|
            requests(replies) == class_requests(
                parts.sender_ptr,
                replies[1] == StatusItemReply::ClassLookedUp(None),
            ) + #[trigger] item_requests(parts, class),
        replies[0] == StatusItemReply::SenderBoxed(parts.sender_ptr),
        parts.sender_ptr != 0,
{
    let of = lemma_requests_behind(replies);
    assert(item_requests(parts, of.1).take(7) =~= item_requests(parts, of.1));
    lemma_sender_is_the_boxed_one(replies);
}

proof fn lemma_sender_is_the_boxed_one(replies: Seq<StatusItemReply>)
    requires
        is_conversation(replies),
        replies.len() > 0,
    ensures
        !(run(replies) is BoxSender),
        replies[0] == StatusItemReply::SenderBoxed(parts_known(run(replies)).sender_ptr),
        parts_known(run(replies)).sender_ptr != 0,
    decreases replies.len(),
{
    if replies.len() > 1 {
        lemma_sender_is_the_boxed_one(replies.drop_last());
    }
}

/// The requests that make a status item, in terms of what the replies so far said. Each reference
/// that is passed on, and each of those that the item holds in the end, is the one that its own
/// reply gave: the class that was found or declared, the target that was made of it, the item
/// that the status bar made, and the sender that was boxed.
pub proof fn status_item_holds_what_the_replies_gave(replies: Seq<StatusItemReply>)
    requires
        is_conversation(replies),
    ensures
        replies.len() == 0 ==> run(replies) == StatusItemStep::BoxSender,
        replies.len() > 0 ==> (replies[0] matches StatusItemReply::SenderBoxed(sender_ptr) && {
            &&& sender_ptr != 0
            &&& replies.len() == 1 ==> run(replies) == (StatusItemStep::LookUpClass {
                sender_ptr,
                name: TARGET_CLASS,
            })
            &&& replies.len() > 1 ==> (replies[1] matches StatusItemReply::ClassLookedUp(found)
                && {
                let known: int = if found is Some {
                    2
                } else {
                    3
                };
                let class = if found is Some {
                    found->0
                } else {
                    replies[2]->ClassDeclared_0
                };
                &&& found is None && replies.len() == 2 ==> run(replies) == (
                StatusItemStep::DeclareClass {
                    sender_ptr,
                    name: TARGET_CLASS,
                    superclass: TARGET_SUPERCLASS,
                    ivar: SENDER_IVAR,
                    selector: CLICK_SELECTOR,
                })
                &&& found is None && replies.len() > 2 ==> replies[2] is ClassDeclared
                &&& replies.len() == known ==> run(replies) == (StatusItemStep::CreateTarget {
                    sender_ptr,
                    class,
                    ivar: SENDER_IVAR,
                })
                &&& replies.len() > known ==> (
                replies[known] matches StatusItemReply::TargetCreated(target) && {
                    &&& replies.len() == known + 1 ==> run(replies) == (
                    StatusItemStep::CreateItem { sender_ptr, target, length: (-1) as i32 })
                    &&& replies.len() > known + 1 ==> (
                    replies[known + 1] matches StatusItemReply::ItemCreated(item) && {
                        let parts = StatusItem { item, target, sender_ptr };
                        let n = replies.len();
                        &&& n <= known + 7
                        &&& n == known + 2 ==> run(replies) == StatusItemStep::RetainItem(parts)
                        &&& n == known + 3 ==> run(replies) == (StatusItemStep::SetTitle {
                            parts,
                            title: TITLE,
                        })
                        &&& n == known + 4 ==> run(replies) == StatusItemStep::RetainTarget(parts)
                        &&& n == known + 5 ==> run(replies) == StatusItemStep::SetTarget(parts)
                        &&& n == known + 6 ==> run(replies) == (StatusItemStep::SetAction {
                            parts,
                            action: CLICK_SELECTOR,
                        })
                        &&& n == known + 7 ==> run(replies) == StatusItemStep::Created(parts)
                    })
                })
            })
        }),
    decreases replies.len(),
{
    if replies.len() > 0 {
        status_item_holds_what_the_replies_gave(replies.drop_last());
    }
}

/// In a conversation that made a status item every reply of a kind carries the reference that
/// the item holds: there is one item, one target and one sender, and no other.
pub proof fn made_status_item_is_the_one_given(
    replies: Seq<StatusItemReply>,
    parts: StatusItem,
    i: int,
)
    requires
        is_conversation(replies),
        run(replies) == StatusItemStep::Created(parts),
        0 <= i < replies.len(),
    ensures
        replies[i] matches StatusItemReply::SenderBoxed(sender_ptr) ==> sender_ptr
            == parts.sender_ptr,
        replies[i] matches StatusItemReply::TargetCreated(target) ==> target == parts.target,
        replies[i] matches StatusItemReply::ItemCreated(item) ==> item == parts.item,
        replies.contains(StatusItemReply::SenderBoxed(parts.sender_ptr)),
        replies.contains(StatusItemReply::TargetCreated(parts.target)),
        replies.contains(StatusItemReply::ItemCreated(parts.item)),
{
    status_item_holds_what_the_replies_gave(replies);
    lemma_last_replies_are_done(replies);
    let known: int = if replies[1] == StatusItemReply::ClassLookedUp(None) {
        3
    } else {
        2
    };
    assert(replies.contains(replies[0]));
    assert(replies.contains(replies[known]));
    assert(replies.contains(replies[known + 1]));
}

proof fn lemma_last_replies_are_done(replies: Seq<StatusItemReply>)
    requires
        is_conversation(replies),
    ensures
        ({
            let known: int = if replies.len() > 1 && replies[1] == StatusItemReply::ClassLookedUp(
                None,
            ) {
                3
            } else {
                2
            };
            forall|i: int| known + 2 <= i < replies.len() ==> #[trigger] replies[i] is Done
        }),
    decreases replies.len(),
{
    if replies.len() > 0 {
        let earlier = replies.drop_last();
        lemma_last_replies_are_done(earlier);
        status_item_holds_what_the_replies_gave(earlier);
        assert forall|i: int|
            (if replies.len() > 1 && replies[1] == StatusItemReply::ClassLookedUp(None) {
                3int
            } else {
                2int
            }) + 2 <= i < replies.len() implies #[trigger] replies[i] is Done by {
            if i < earlier.len() {
                assert(earlier[i] == replies[i]);
            }
        }
    }
}

/// At each request exactly the replies to that request are taken, whatever they say; only a box
/// cannot be null. None is taken once the item is there.
pub proof fn replies_to_the_request_are_taken(step: StatusItemStep, reply: StatusItemReply)
    ensures
        reply matches StatusItemReply::SenderBoxed(sender_ptr) ==> (step.fits(reply) <==> step
            is BoxSender && sender_ptr != 0),
        reply is ClassLookedUp ==> (step.fits(reply) <==> step is LookUpClass),
        reply is ClassDeclared ==> (step.fits(reply) <==> step is DeclareClass),
        reply is TargetCreated ==> (step.fits(reply) <==> step is CreateTarget),
        reply is ItemCreated ==> (step.fits(reply) <==> step is CreateItem),
        reply is Done ==> (step.fits(reply) <==> step is RetainItem || step is SetTitle || step
            is RetainTarget || step is SetTarget || step is SetAction),
{
}

} // verus!
