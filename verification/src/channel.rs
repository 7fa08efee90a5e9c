//! Binary channel communication between the engine and the host application.
//!
//! The channel is an unbounded first-in-first-out queue of byte messages.
//! `send` enqueues a message at the back; `receive` is non-blocking, returns
//! at most one pending message per call, oldest first, and returns nothing
//! once the queue is drained. The queue itself is the unbounded channel of
//! the `crossbeam_channel` crate, held behind trusted wrappers.

use vstd::prelude::*;

verus! {

/// Makes `crossbeam_channel::Sender` usable in signatures and fields.
#[verifier::external_type_specification]
#[verifier::external_body]
#[verifier::reject_recursive_types(T)]
pub struct ExSender<T>(crossbeam_channel::Sender<T>);

/// Makes `crossbeam_channel::Receiver` usable in signatures and fields.
#[verifier::external_type_specification]
#[verifier::external_body]
#[verifier::reject_recursive_types(T)]
pub struct ExReceiver<T>(crossbeam_channel::Receiver<T>);

/// The messages pending in the channel this receiver drains, oldest first.
pub uninterp spec fn channel_pending(receiver: crossbeam_channel::Receiver<Vec<u8>>) -> Seq<
    Seq<u8>,
>;

/// Whether the sender and the receiver are the two ends of one channel.
pub uninterp spec fn channel_connected(
    sender: crossbeam_channel::Sender<Vec<u8>>,
    receiver: crossbeam_channel::Receiver<Vec<u8>>,
) -> bool;

/// Relies on `crossbeam_channel::unbounded`: it returns the sender and the
/// receiver of one newly created channel, which holds no message yet.
#[verifier::external_body]
fn unbounded_pair() -> (pair: (
    crossbeam_channel::Sender<Vec<u8>>,
    crossbeam_channel::Receiver<Vec<u8>>,
))
    ensures
        channel_connected(pair.0, pair.1),
        channel_pending(pair.1) == Seq::<Seq<u8>>::empty(),
{
    crossbeam_channel::unbounded()
}

/// Relies on `crossbeam_channel::Sender::send`: on an unbounded channel whose
/// receiver is alive it appends the message at the back of the queue and
/// never blocks. The receiver of the same channel is borrowed mutably only so
/// that the contract can speak of the queue before and after the call.
#[verifier::external_body]
fn send_through(
    sender: &crossbeam_channel::Sender<Vec<u8>>,
    receiver: &mut crossbeam_channel::Receiver<Vec<u8>>,
    data: Vec<u8>,
)
    requires
        channel_connected(*sender, *old(receiver)),
    ensures
        channel_connected(*sender, *final(receiver)),
        channel_pending(*final(receiver)) == channel_pending(*old(receiver)).push(data@),
{
    let _ = sender.send(data);
}

/// Relies on `crossbeam_channel::Receiver::try_recv`: without blocking it
/// takes the oldest pending message out of the channel, or reports that none
/// is pending. The sender of the same channel is passed only so that the
/// contract can keep the two ends tied to one queue.
#[verifier::external_body]
fn recv_through(
    sender: &crossbeam_channel::Sender<Vec<u8>>,
    receiver: &mut crossbeam_channel::Receiver<Vec<u8>>,
) -> (message: Option<Vec<u8>>)
    requires
        channel_connected(*sender, *old(receiver)),
    ensures
        channel_connected(*sender, *final(receiver)),
        channel_pending(*old(receiver)).len() == 0 ==> message is None && channel_pending(
            *final(receiver),
        ) == channel_pending(*old(receiver)),
        channel_pending(*old(receiver)).len() > 0 ==> (message matches Some(data)
            && data@ == channel_pending(*old(receiver)).first()) && channel_pending(
            *final(receiver),
        ) == channel_pending(*old(receiver)).drop_first(),
{
    receiver.try_recv().ok()
}

/// Trait for bidirectional binary message passing.
///
/// An implementation is a first-in-first-out message queue: `send` enqueues
/// at the back and `receive` takes from the front, one message per call,
/// without blocking.
pub trait BinaryChannel: Send + Sync {
    /// Whether this channel is in a usable state.
    spec fn wf(&self) -> bool;

    /// The messages sent and not yet received, oldest first.
    spec fn pending(&self) -> Seq<Seq<u8>>;

    /// Send a binary message to the other end.
    fn send(&mut self, data: Vec<u8>)
        requires
            old(self).wf(),
        ensures
            final(self).wf(),
            final(self).pending() == old(self).pending().push(data@),
    ;

    /// Receive a binary message from the other end (non-blocking): one
    /// receive performs one [`receive_step`] on the pending queue.
    fn receive(&mut self) -> (message: Option<Vec<u8>>)
        requires
            old(self).wf(),
        ensures
            final(self).wf(),
            (match message {
                Some(data) => Some(data@),
                None => None,
            }) == receive_step(old(self).pending()).0,
            final(self).pending() == receive_step(old(self).pending()).1,
    ;
}

/// Resource-style channel connecting the engine to the host application.
pub struct HostChannel {
    sender: crossbeam_channel::Sender<Vec<u8>>,
    receiver: crossbeam_channel::Receiver<Vec<u8>>,
}

impl HostChannel {
    /// Creates a host channel from a sender and a receiver.
    ///
    /// The send and receive contracts apply to a channel whose two ends
    /// belong together, as [`Default::default`] creates them; this
    /// constructor records the ends it is given without assuming that.
    pub fn new(
        sender: crossbeam_channel::Sender<Vec<u8>>,
        receiver: crossbeam_channel::Receiver<Vec<u8>>,
    ) -> (channel: Self)
        ensures
            channel.wf() == channel_connected(sender, receiver),
            channel.pending() == channel_pending(receiver),
    {
        HostChannel { sender, receiver }
    }
}

impl Default for HostChannel {
    /// Creates a channel with no pending message.
    fn default() -> (channel: Self)
        ensures
            channel.wf(),
            channel.pending() == Seq::<Seq<u8>>::empty(),
    {
        let (sender, receiver) = unbounded_pair();
        HostChannel { sender, receiver }
    }
}

impl BinaryChannel for HostChannel {
    closed spec fn wf(&self) -> bool {
        channel_connected(self.sender, self.receiver)
    }

    closed spec fn pending(&self) -> Seq<Seq<u8>> {
        channel_pending(self.receiver)
    }

    fn send(&mut self, data: Vec<u8>) {
        send_through(&self.sender, &mut self.receiver, data);
    }

    fn receive(&mut self) -> (message: Option<Vec<u8>>) {
        recv_through(&self.sender, &mut self.receiver)
    }
}

/// The part of a received message that fits the host's buffer: the whole
/// message when the buffer is large enough for it, else the message's first
/// `capacity` bytes.
pub fn truncate_message(message: Vec<u8>, capacity: usize) -> (fitted: Vec<u8>)
    ensures
        message@.len() <= capacity ==> fitted@ == message@,
        message@.len() > capacity ==> fitted@ == message@.subrange(0, capacity as int),
{
    let mut fitted = message;
    fitted.truncate(capacity);
    fitted
}

/// What one non-blocking receive yields on a queue: the oldest message and
/// the rest of the queue, or nothing and the unchanged (empty) queue.
pub open spec fn receive_step(queue: Seq<Seq<u8>>) -> (Option<Seq<u8>>, Seq<Seq<u8>>) {
    if queue.len() == 0 {
        (None, queue)
    } else {
        (Some(queue.first()), queue.drop_first())
    }
}

/// The queue left after `count` successive receives.
pub open spec fn queue_after_receives(queue: Seq<Seq<u8>>, count: nat) -> Seq<Seq<u8>>
    decreases count,
{
    if count == 0 {
        queue
    } else {
        receive_step(queue_after_receives(queue, (count - 1) as nat)).1
    }
}

/// After `count` receives, the messages left are the queue with its first
/// `count` messages removed.
pub proof fn lemma_queue_after_receives(queue: Seq<Seq<u8>>, count: nat)
    requires
        count <= queue.len(),
    ensures
        queue_after_receives(queue, count) =~= queue.skip(count as int),
    decreases count,
{
    if count > 0 {
        lemma_queue_after_receives(queue, (count - 1) as nat);
    }
}

/// Receives see the queue first-in first-out: the receive after `index`
/// earlier receives yields exactly the message that the `index`-th send
/// enqueued, one message per call, and once every pending message has been
/// received a further receive yields nothing.
pub proof fn lemma_receive_fifo(queue: Seq<Seq<u8>>, index: int)
    requires
        0 <= index < queue.len(),
    ensures
        receive_step(queue_after_receives(queue, index as nat)).0 == Some(queue[index]),
        receive_step(queue_after_receives(queue, queue.len())).0 is None,
{
    lemma_queue_after_receives(queue, index as nat);
    lemma_queue_after_receives(queue, queue.len());
}

} // verus!
