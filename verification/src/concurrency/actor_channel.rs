//! The bounded mailbox: a FIFO queue with closable endpoints.
//!
//! This is the handoff queue between a producer and a single consumer.
//! Items come out in the order they went in; a full queue refuses new
//! items (backpressure), and once an endpoint is closed the other side
//! is told so instead of waiting forever. A host runtime drives the
//! actual blocking: where it would suspend, this model answers with the
//! outcome the runtime's own wait or deadline produces.

use vstd::prelude::*;
use crate::concurrency::csp::RecvError;
use crate::concurrency::csp::SendError;

verus! {

/// A bounded FIFO mailbox with one producer side and one consumer side.
pub struct ActorChannel<T> {
    queue: Vec<T>,
    bound: usize,
    sender_open: bool,
    receiver_open: bool,
}

impl<T> ActorChannel<T> {
    #[verifier::type_invariant]
    closed spec fn wf(self) -> bool {
        self.queue@.len() <= self.bound && self.bound >= 1
    }

    /// The queued items, oldest first.
    pub closed spec fn spec_queue(&self) -> Seq<T> {
        self.queue@
    }

    /// The capacity of the mailbox.
    pub closed spec fn spec_bound(&self) -> usize {
        self.bound
    }

    /// Whether the producer side is still attached.
    pub closed spec fn spec_sender_open(&self) -> bool {
        self.sender_open
    }

    /// Whether the consumer side is still attached.
    pub closed spec fn spec_receiver_open(&self) -> bool {
        self.receiver_open
    }

    /// A fresh mailbox with the given capacity. A capacity of zero
    /// could never accept an item, so it is excluded.
    pub fn new(bound: usize) -> (r: Self)
        requires
            bound >= 1,
        ensures
            r.spec_queue() == Seq::<T>::empty(),
            r.spec_bound() == bound,
            r.spec_sender_open(),
            r.spec_receiver_open(),
    {
        ActorChannel { queue: Vec::new(), bound, sender_open: true, receiver_open: true }
    }

    /// How many items are queued.
    pub fn len(&self) -> (r: usize)
        ensures
            r == self.spec_queue().len(),
    {
        self.queue.len()
    }

    /// Send one item into the mailbox.
    ///
    /// Fails, leaving the mailbox unchanged, when the consumer side is
    /// gone ("channel closed" — permanently) or the queue is full
    /// ("channel full" — the backpressure a host runtime turns into a
    /// bounded wait or a timeout). Otherwise the item is appended.
    pub fn send(&mut self, data: T) -> (r: Result<(), SendError>)
        ensures
            old(self).spec_queue().len() <= old(self).spec_bound(),
            !old(self).spec_receiver_open() ==> (r matches Err(e) && e.0@ == "channel closed"@
                && *final(self) == *old(self)),
            old(self).spec_receiver_open() && old(self).spec_queue().len() == old(self).spec_bound() ==> (r matches Err(e) && e.0@ == "channel full"@ && *final(self) == *old(self)),
            old(self).spec_receiver_open() && old(self).spec_queue().len() < old(self).spec_bound() ==> (r is Ok && final(self).spec_queue() == old(self).spec_queue().push(data) && final(self).spec_bound() == old(self).spec_bound()
                && final(self).spec_sender_open() == old(self).spec_sender_open() && final(self).spec_receiver_open()),
    {
        proof {
            use_type_invariant(&*self);
        }
        if !self.receiver_open {
            return Err(SendError(String::from_str("channel closed")));
        }
        if self.queue.len() == self.bound {
            return Err(SendError(String::from_str("channel full")));
        }
        let mut queue: Vec<T> = Vec::new();
        core::mem::swap(&mut queue, &mut self.queue);
        queue.push(data);
        self.queue = queue;
        Ok(())
    }

    /// Receive the oldest queued item.
    ///
    /// When the queue is empty and the producer side is gone, this fails
    /// with "channel closed" — permanently, rather than hanging. When
    /// the queue is empty but the producer is still attached, the host
    /// runtime would wait; its expired deadline is reported here as
    /// "deadline has elapsed". Otherwise the oldest item is removed and
    /// returned.
    pub fn recv(&mut self) -> (r: Result<T, RecvError>)
        ensures
            old(self).spec_queue().len() <= old(self).spec_bound(),
            old(self).spec_queue().len() > 0 ==> (r matches Ok(v) && v == old(self).spec_queue()[0]
                && final(self).spec_queue() == old(self).spec_queue().drop_first() && final(self).spec_bound() == old(self).spec_bound() && final(self).spec_sender_open() == old(self).spec_sender_open() && final(self).spec_receiver_open() == old(self).spec_receiver_open()),
            old(self).spec_queue().len() == 0 && !old(self).spec_sender_open() ==> (r matches Err(
                e,
            ) && e.0@ == "channel closed"@ && *final(self) == *old(self)),
            old(self).spec_queue().len() == 0 && old(self).spec_sender_open() ==> (r matches Err(e)
                && e.0@ == "deadline has elapsed"@ && *final(self) == *old(self)),
    {
        proof {
            use_type_invariant(&*self);
        }
        if self.queue.len() == 0 {
            if !self.sender_open {
                return Err(RecvError(String::from_str("channel closed")));
            }
            return Err(RecvError(String::from_str("deadline has elapsed")));
        }
        let mut queue: Vec<T> = Vec::new();
        core::mem::swap(&mut queue, &mut self.queue);
        let item = queue.remove(0);
        self.queue = queue;
        Ok(item)
    }

    /// Detach the producer side, as dropping a sender does: queued items
    /// can still be received, after which receives report the channel
    /// closed.
    pub fn close_sender(&mut self)
        ensures
            !final(self).spec_sender_open(),
            final(self).spec_queue() == old(self).spec_queue(),
            final(self).spec_bound() == old(self).spec_bound(),
            final(self).spec_receiver_open() == old(self).spec_receiver_open(),
    {
        proof {
            use_type_invariant(&*self);
        }
        self.sender_open = false;
    }

    /// Detach the consumer side, as dropping a receiver does: every
    /// later send fails with the channel closed.
    pub fn close_receiver(&mut self)
        ensures
            !final(self).spec_receiver_open(),
            final(self).spec_queue() == old(self).spec_queue(),
            final(self).spec_bound() == old(self).spec_bound(),
            final(self).spec_sender_open() == old(self).spec_sender_open(),
    {
        proof {
            use_type_invariant(&*self);
        }
        self.receiver_open = false;
    }
}

} // verus!
