//! Per-actor mailbox: a FIFO message queue carried by a crossbeam channel,
//! plus the stopped and sleeping flags the scheduler observes.

use vstd::prelude::*;
use crate::messages::{ActorError, SerializedMessage};

verus! {

/// The channel that carries an actor's messages. Both halves of one
/// crossbeam channel are held together, so the queue has a single owner
/// and its contents evolve only through the operations below.
#[verifier::external_body]
pub struct MsgQueue {
    sender: crossbeam_channel::Sender<SerializedMessage>,
    receiver: crossbeam_channel::Receiver<SerializedMessage>,
}

/// The messages currently queued, oldest first.
pub uninterp spec fn msg_queue_contents(q: MsgQueue) -> Seq<SerializedMessage>;

/// The capacity the queue was created with; zero means unbounded.
pub uninterp spec fn msg_queue_bound(q: MsgQueue) -> usize;

/// Relies on `crossbeam_channel::unbounded` / `bounded`: a freshly created
/// channel holds no messages, and a bounded channel holds at most its
/// capacity.
#[verifier::external_body]
fn msg_queue_new(bound: usize) -> (q: MsgQueue)
    ensures
        msg_queue_contents(q) == Seq::<SerializedMessage>::empty(),
        msg_queue_bound(q) == bound,
{
    let (sender, receiver) = if bound == 0 {
        crossbeam_channel::unbounded()
    } else {
        crossbeam_channel::bounded(bound)
    };
    MsgQueue { sender, receiver }
}

/// Relies on `crossbeam_channel::Sender::try_send`: on an unbounded
/// channel, or a bounded one below capacity, the message is enqueued at
/// the back; on a full bounded channel nothing changes and `Full` is
/// reported. Disconnection cannot occur: the receiver lives in the same
/// struct.
#[verifier::external_body]
fn msg_queue_try_send(q: &mut MsgQueue, msg: SerializedMessage) -> (r: bool)
    ensures
        msg_queue_bound(*final(q)) == msg_queue_bound(*old(q)),
        (msg_queue_bound(*old(q)) == 0 || msg_queue_contents(*old(q)).len() < msg_queue_bound(
            *old(q),
        )) ==> (r && msg_queue_contents(*final(q)) == msg_queue_contents(*old(q)).push(msg)),
        !(msg_queue_bound(*old(q)) == 0 || msg_queue_contents(*old(q)).len() < msg_queue_bound(
            *old(q),
        )) ==> (!r && msg_queue_contents(*final(q)) == msg_queue_contents(*old(q))),
{
    q.sender.try_send(msg).is_ok()
}

/// Relies on `crossbeam_channel::Receiver::try_recv`: returns the oldest
/// queued message without blocking, or `Empty` when none is queued.
#[verifier::external_body]
fn msg_queue_try_recv(q: &mut MsgQueue) -> (r: Option<SerializedMessage>)
    ensures
        msg_queue_bound(*final(q)) == msg_queue_bound(*old(q)),
        msg_queue_contents(*old(q)).len() == 0 ==> (r is None && msg_queue_contents(*final(q))
            == msg_queue_contents(*old(q))),
        msg_queue_contents(*old(q)).len() > 0 ==> (r == Some(msg_queue_contents(*old(q))[0])
            && msg_queue_contents(*final(q)) == msg_queue_contents(*old(q)).skip(1)),
{
    match q.receiver.try_recv() {
        Ok(m) => Some(m),
        Err(_) => None,
    }
}

/// Relies on `crossbeam_channel::Receiver::len`: the number of messages
/// currently queued.
#[verifier::external_body]
fn msg_queue_len(q: &MsgQueue) -> (n: usize)
    ensures
        n == msg_queue_contents(*q).len(),
{
    q.receiver.len()
}

/// A per-actor message queue with the sleep and stop flags shared between
/// senders and the scheduler. Once `stopped` is set, no further messages
/// are accepted and no further activations occur; the transition is
/// irreversible.
pub struct Mailbox {
    queue: MsgQueue,
    is_stopped: bool,
    is_sleeping: bool,
}

impl Mailbox {
    /// The messages pending delivery, oldest first.
    pub closed spec fn contents(self) -> Seq<SerializedMessage> {
        msg_queue_contents(self.queue)
    }

    /// The configured capacity; zero means unbounded.
    pub closed spec fn capacity(self) -> usize {
        msg_queue_bound(self.queue)
    }

    pub closed spec fn stopped(self) -> bool {
        self.is_stopped
    }

    pub closed spec fn sleeping(self) -> bool {
        self.is_sleeping
    }

    /// A fresh mailbox: empty, open, and asleep (a newly spawned actor has
    /// no pending work).
    pub fn new(capacity: usize) -> (r: Mailbox)
        ensures
            r.contents() == Seq::<SerializedMessage>::empty(),
            r.capacity() == capacity,
            !r.stopped(),
            r.sleeping(),
    {
        Mailbox { queue: msg_queue_new(capacity), is_stopped: false, is_sleeping: true }
    }

    /// Enqueues a message without blocking. Fails with `MailboxClosed`
    /// once the mailbox is stopped, and with `MailboxFull` when a bounded
    /// mailbox is at capacity (a blocking sender retries on `MailboxFull`;
    /// that wait loop lives with the caller, which keeps this operation
    /// total).
    pub fn send(&mut self, msg: SerializedMessage) -> (r: Result<(), ActorError>)
        ensures
            final(self).capacity() == old(self).capacity(),
            final(self).stopped() == old(self).stopped(),
            final(self).sleeping() == old(self).sleeping(),
            old(self).stopped() ==> r == Err::<(), ActorError>(ActorError::MailboxClosed)
                && final(self).contents() == old(self).contents(),
            (!old(self).stopped() && (old(self).capacity() == 0 || old(self).contents().len()
                < old(self).capacity())) ==> r == Ok::<(), ActorError>(()) && final(self).contents()
                == old(self).contents().push(msg),
            (!old(self).stopped() && !(old(self).capacity() == 0 || old(self).contents().len()
                < old(self).capacity())) ==> r == Err::<(), ActorError>(ActorError::MailboxFull)
                && final(self).contents() == old(self).contents(),
    {
        if self.is_stopped {
            return Err(ActorError::MailboxClosed);
        }
        if msg_queue_try_send(&mut self.queue, msg) {
            Ok(())
        } else {
            Err(ActorError::MailboxFull)
        }
    }

    /// Dequeues the oldest pending message, or `None` when the mailbox is
    /// empty. Never blocks: this runs inside a scheduled activation, not
    /// in an idle-waiting loop.
    pub fn try_receive(&mut self) -> (r: Option<SerializedMessage>)
        ensures
            final(self).capacity() == old(self).capacity(),
            final(self).stopped() == old(self).stopped(),
            final(self).sleeping() == old(self).sleeping(),
            old(self).contents().len() == 0 ==> r is None
                && final(self).contents() == old(self).contents(),
            old(self).contents().len() > 0 ==> r == Some(old(self).contents()[0])
                && final(self).contents() == old(self).contents().skip(1),
    {
        msg_queue_try_recv(&mut self.queue)
    }

    /// Drains up to `limit` messages in FIFO order; returns the empty
    /// vector when none are pending.
    pub fn try_receive_batch(&mut self, limit: usize) -> (r: Vec<SerializedMessage>)
        ensures
            final(self).capacity() == old(self).capacity(),
            final(self).stopped() == old(self).stopped(),
            final(self).sleeping() == old(self).sleeping(),
            r@.len() == vstd::math::min(limit as int, old(self).contents().len() as int),
            r@ == old(self).contents().take(r@.len() as int),
            final(self).contents() == old(self).contents().skip(r@.len() as int),
    {
        let mut out: Vec<SerializedMessage> = Vec::new();
        let mut taken: usize = 0;
        while taken < limit
            invariant
                taken <= limit,
                out@.len() == taken,
                taken <= old(self).contents().len(),
                out@ == old(self).contents().take(taken as int),
                self.contents() == old(self).contents().skip(taken as int),
                self.capacity() == old(self).capacity(),
                self.stopped() == old(self).stopped(),
                self.sleeping() == old(self).sleeping(),
            decreases limit - taken,
        {
            match msg_queue_try_recv(&mut self.queue) {
                None => {
                    proof {
                        assert(old(self).contents().skip(taken as int).len() == 0);
                        assert(out@ =~= old(self).contents().take(out@.len() as int));
                    }
                    return out;
                },
                Some(m) => {
                    proof {
                        assert(old(self).contents().skip(taken as int).skip(1)
                            =~= old(self).contents().skip(taken as int + 1));
                        assert(old(self).contents().take(taken as int).push(
                            old(self).contents().skip(taken as int)[0],
                        ) =~= old(self).contents().take(taken as int + 1));
                    }
                    out.push(m);
                    taken += 1;
                },
            }
        }
        proof {
            assert(out@ =~= old(self).contents().take(out@.len() as int));
        }
        out
    }

    /// The number of pending messages.
    pub fn len(&self) -> (n: usize)
        ensures
            n == self.contents().len(),
    {
        msg_queue_len(&self.queue)
    }

    /// Marks the mailbox stopped: idempotent and irreversible. Pending
    /// messages stay in place (they are discarded with the mailbox, never
    /// re-delivered).
    pub fn mark_stopped(&mut self)
        ensures
            final(self).stopped(),
            final(self).capacity() == old(self).capacity(),
            final(self).sleeping() == old(self).sleeping(),
            final(self).contents() == old(self).contents(),
    {
        self.is_stopped = true;
    }

    /// Records whether the owning actor is asleep; maintained by the
    /// executor (cleared when an activation starts, set when it drains the
    /// mailbox empty) and read by senders to decide whether to wake.
    pub fn set_sleeping(&mut self, sleeping: bool)
        ensures
            final(self).sleeping() == sleeping,
            final(self).stopped() == old(self).stopped(),
            final(self).capacity() == old(self).capacity(),
            final(self).contents() == old(self).contents(),
    {
        self.is_sleeping = sleeping;
    }

    /// Reads the stopped flag.
    pub fn is_closed(&self) -> (r: bool)
        ensures
            r == self.stopped(),
    {
        self.is_stopped
    }

    /// Reads the sleeping flag.
    pub fn is_asleep(&self) -> (r: bool)
        ensures
            r == self.sleeping(),
    {
        self.is_sleeping
    }
}

/// FIFO per sender: two messages enqueued one after the other land at
/// consecutive positions, after the existing backlog and in send order;
/// since every receive takes the lowest position first, they are
/// processed in send order, with the backlog before them.
pub proof fn lemma_fifo_per_sender(
    backlog: Seq<SerializedMessage>,
    m1: SerializedMessage,
    m2: SerializedMessage,
)
    ensures
        ({
            let q = backlog.push(m1).push(m2);
            &&& q.len() == backlog.len() + 2
            &&& q[backlog.len() as int] == m1
            &&& q[backlog.len() as int + 1] == m2
            &&& forall|k: int| 0 <= k < backlog.len() ==> q[k] == backlog[k]
        }),
{
}

} // verus!
