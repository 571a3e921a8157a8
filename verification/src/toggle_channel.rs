//! The channel on which hotkeys, the status item and the key monitor ask for a toggle.
use futures::channel::mpsc::{UnboundedReceiver, UnboundedSender};
use vstd::prelude::*;

verus! {

/// `futures::channel::mpsc::UnboundedSender`, the sending end of an unbounded channel. It is
/// carried as an opaque value.
#[verifier::external_type_specification]
#[verifier::external_body]
#[verifier::reject_recursive_types(T)]
pub struct ExUnboundedSender<T>(futures::channel::mpsc::UnboundedSender<T>);

/// `futures::channel::mpsc::UnboundedReceiver`, the receiving end of an unbounded channel. It is
/// carried as an opaque value.
#[verifier::external_type_specification]
#[verifier::external_body]
#[verifier::reject_recursive_types(T)]
pub struct ExUnboundedReceiver<T>(futures::channel::mpsc::UnboundedReceiver<T>);

/// Whether what `sender` sends arrives at `receiver`: the answer of
/// `UnboundedSender::is_connected_to`.
pub uninterp spec fn connected(
    sender: UnboundedSender<()>,
    receiver: UnboundedReceiver<()>,
) -> bool;

/// The messages that this crate's [`ToggleSender::send`] sent through this handle of a channel,
/// oldest first: for each one, whether the channel took it.
///
/// `UnboundedSender::unbounded_send` takes a shared reference, so whoever holds a bare sender,
/// such as [`Startup::sender`](crate::startup::Startup::sender), can also call it directly. Those
/// messages arrive too and are not counted here.
pub uninterp spec fn sends(sender: UnboundedSender<()>) -> Seq<bool>;

/// Whether two handles send to the same receiver.
pub open spec fn same_channel(one: UnboundedSender<()>, other: UnboundedSender<()>) -> bool {
    forall|receiver: UnboundedReceiver<()>|
        #![trigger connected(one, receiver)]
        #![trigger connected(other, receiver)]
        connected(one, receiver) == connected(other, receiver)
}

/// Calls `futures::channel::mpsc::unbounded`. Claimed of it: the two ends that it returns
/// belong to one channel, and nothing has been sent yet.
#[verifier::external_body]
pub(crate) fn unbounded_channel() -> (ends: (UnboundedSender<()>, UnboundedReceiver<()>))
    ensures
        connected(ends.0, ends.1),
        sends(ends.0) == Seq::<bool>::empty(),
{
    futures::channel::mpsc::unbounded::<()>()
}

/// Calls `UnboundedSender::clone`. Claimed of it: the clone is another handle of the same
/// channel, through which nothing has been sent yet.
///
/// The call panics once some `usize::MAX / 4` handles of one channel are alive, which memory
/// does not allow; the contract does not speak of it.
#[verifier::external_body]
pub(crate) fn clone_sender(sender: &UnboundedSender<()>) -> (clone: UnboundedSender<()>)
    ensures
        same_channel(clone, *sender),
        sends(clone) == Seq::<bool>::empty(),
{
    sender.clone()
}

/// Calls `UnboundedSender::unbounded_send` with the message `()` and says whether it was taken.
/// Claimed of it: one message was sent through this handle, with the outcome that is returned,
/// and the handle stays one of the same channel.
///
/// Nothing is claimed of the outcome itself: a send succeeds as long as the receiving end has
/// not been closed, and whoever holds that end may close it at any time. The call panics when
/// `usize::MAX / 2` messages are queued, which memory does not allow; the contract does not
/// speak of it.
#[verifier::external_body]
fn unbounded_send(sender: &mut UnboundedSender<()>) -> (taken: bool)
    ensures
        same_channel(*final(sender), *old(sender)),
        sends(*final(sender)) == sends(*old(sender)).push(taken),
{
    sender.unbounded_send(()).is_ok()
}

/// A handle through which toggles are asked for.
pub struct ToggleSender {
    sender: UnboundedSender<()>,
}

impl ToggleSender {
    /// The channel's sending end.
    pub closed spec fn handle(&self) -> UnboundedSender<()> {
        self.sender
    }

    /// One entry for each toggle asked for through this handle, oldest first: whether the
    /// channel took it.
    pub open spec fn outcomes(&self) -> Seq<bool> {
        sends(self.handle())
    }

    /// Whether `self` is what `before` became by asking for one toggle, whatever came of it.
    pub open spec fn asked_once_since(&self, before: &ToggleSender) -> bool {
        &&& same_channel(self.handle(), before.handle())
        &&& self.outcomes().len() == before.outcomes().len() + 1
        &&& self.outcomes().drop_last() == before.outcomes()
    }

    /// Toggles are asked for through `sender` from now on.
    pub fn new(sender: UnboundedSender<()>) -> (handle: ToggleSender)
        ensures
            handle.handle() == sender,
    {
        ToggleSender { sender }
    }

    /// Another handle of the channel of `sender`, through which nothing has been asked for yet.
    pub fn another_of(sender: &UnboundedSender<()>) -> (handle: ToggleSender)
        ensures
            same_channel(handle.handle(), *sender),
            handle.outcomes() == Seq::<bool>::empty(),
    {
        ToggleSender { sender: clone_sender(sender) }
    }

    /// Asks for one toggle. The answer is `false` when nobody receives any more.
    pub fn send(&mut self) -> (taken: bool)
        ensures
            final(self).outcomes() == old(self).outcomes().push(taken),
            final(self).asked_once_since(old(self)),
    {
        let taken = unbounded_send(&mut self.sender);
        assert(self.outcomes().drop_last() =~= old(self).outcomes());
        taken
    }
}

/// Asking once for a toggle adds exactly one outcome behind those that were there, through a
/// handle that reaches the receivers that it reached before and no others.
pub proof fn asking_once_adds_one_outcome(
    before: ToggleSender,
    after: ToggleSender,
    receiver: UnboundedReceiver<()>,
)
    requires
        after.asked_once_since(&before),
    ensures
        sends(after.handle()).len() == sends(before.handle()).len() + 1,
        forall|i: int|
            0 <= i < sends(before.handle()).len() ==> #[trigger] sends(after.handle())[i] == sends(
                before.handle(),
            )[i],
        connected(after.handle(), receiver) <==> connected(before.handle(), receiver),
{
    assert forall|i: int| 0 <= i < sends(before.handle()).len() implies #[trigger] sends(
        after.handle(),
    )[i] == sends(before.handle())[i] by {
        assert(after.outcomes().drop_last()[i] == before.outcomes()[i]);
    }
}

} // verus!
