//! Channel-based rendezvous: errors, capability traits, and a bounded
//! rendezvous stage.
//!
//! The rendezvous stage owns a bounded mailbox; `process` sends its
//! input in and takes the next available item out, so two independently
//! scheduled pipeline segments can be decoupled through it. A host
//! runtime that shares one such channel across tasks performs the
//! actual waiting; here each outcome — accepted, refused because full,
//! refused because closed — is decided by explicit state.

use vstd::prelude::*;
use crate::classified_data::ClassifiedData;
use crate::concurrency::actor_channel::ActorChannel;
use crate::errors::SecureError;

verus! {

/// A failed send, with a description.
#[derive(Debug)]
pub struct SendError(pub String);

/// A failed receive, with a description.
#[derive(Debug)]
pub struct RecvError(pub String);

impl SendError {
    /// The rendered message of this error.
    pub fn message(&self) -> (r: String)
        ensures
            r@ == "SendError: "@ + self.0@,
    {
        String::from_str("SendError: ").concat(self.0.as_str())
    }
}

impl RecvError {
    /// The rendered message of this error.
    pub fn message(&self) -> (r: String)
        ensures
            r@ == "RecvError: "@ + self.0@,
    {
        String::from_str("RecvError: ").concat(self.0.as_str())
    }
}

/// The sending capability of a channel endpoint.
pub trait CSPSend<T> {
    fn send(&mut self, data: T) -> Result<(), SendError>;
}

/// The receiving capability of a channel endpoint.
pub trait CSPRecv<T> {
    fn recv(&mut self) -> Result<T, RecvError>;
}

impl<T> CSPSend<T> for ActorChannel<T> {
    /// Send into the mailbox; see [`ActorChannel::send`].
    fn send(&mut self, data: T) -> (r: Result<(), SendError>)
        ensures
            old(self).spec_receiver_open() && old(self).spec_queue().len() < old(self).spec_bound() ==> (r is Ok && final(self).spec_queue() == old(self).spec_queue().push(
                data,
            )),
            !(old(self).spec_receiver_open() && old(self).spec_queue().len() < old(self).spec_bound()) ==> (r is Err && *final(self) == *old(self)),
    {
        ActorChannel::send(self, data)
    }
}

impl<T> CSPRecv<T> for ActorChannel<T> {
    /// Receive from the mailbox; see [`ActorChannel::recv`].
    fn recv(&mut self) -> (r: Result<T, RecvError>)
        ensures
            old(self).spec_queue().len() > 0 ==> (r matches Ok(v) && v == old(self).spec_queue()[0]
                && final(self).spec_queue() == old(self).spec_queue().drop_first()),
            old(self).spec_queue().len() == 0 ==> (r is Err && *final(self) == *old(self)),
    {
        ActorChannel::recv(self)
    }
}

/// A bounded rendezvous channel exposed as a pipeline stage.
///
/// The channel owns both of its ends, so it can never observe either
/// one closed; the one failure `process` can meet is a full queue.
pub struct CSPChannel {
    queue: Vec<ClassifiedData>,
    bound: usize,
}

impl CSPChannel {
    #[verifier::type_invariant]
    closed spec fn wf(self) -> bool {
        self.queue@.len() <= self.bound && self.bound >= 1
    }

    /// The payloads currently queued, oldest first.
    pub closed spec fn spec_queue(&self) -> Seq<ClassifiedData> {
        self.queue@
    }

    /// The channel's capacity.
    pub closed spec fn spec_bound(&self) -> usize {
        self.bound
    }

    /// A fresh rendezvous channel able to buffer `buffer` items.
    ///
    /// A zero capacity could never buffer the item `process` sends
    /// before it receives, so it is excluded.
    pub fn new(buffer: usize) -> (r: Self)
        requires
            buffer >= 1,
        ensures
            r.spec_queue() == Seq::<ClassifiedData>::empty(),
            r.spec_bound() == buffer,
    {
        CSPChannel { queue: Vec::new(), bound: buffer }
    }

    /// Send one payload into the channel without receiving, as an
    /// independent producer holding the channel's sending end does.
    ///
    /// Fails with the send-timeout error when the queue is full: the
    /// producer's bounded wait for room expires instead of blocking
    /// forever.
    pub fn send(&mut self, data: ClassifiedData) -> (r: Result<(), SecureError>)
        ensures
            old(self).spec_queue().len() < old(self).spec_bound() ==> (r is Ok && final(self).spec_queue() == old(self).spec_queue().push(data)),
            old(self).spec_queue().len() >= old(self).spec_bound() ==> (r matches Err(
                SecureError::PipelineError(m),
            ) && m@ == "Send timeout"@ && *final(self) == *old(self)),
            final(self).spec_bound() == old(self).spec_bound(),
    {
        proof {
            use_type_invariant(&*self);
        }
        if self.queue.len() == self.bound {
            return Err(SecureError::PipelineError(String::from_str("Send timeout")));
        }
        let mut queue: Vec<ClassifiedData> = Vec::new();
        core::mem::swap(&mut queue, &mut self.queue);
        queue.push(data);
        self.queue = queue;
        Ok(())
    }

    /// Send `data` into the channel, then take the next available item
    /// out and return it.
    ///
    /// When the queue has room the call always completes: it returns the
    /// oldest queued payload, or `data` itself if nothing was queued.
    /// When the queue is full, the send cannot complete; the host
    /// runtime's deadline turns that into the send-timeout error
    /// reported here, rather than an unbounded wait.
    pub fn process(&mut self, data: ClassifiedData) -> (r: Result<ClassifiedData, SecureError>)
        ensures
            old(self).spec_queue().len() <= old(self).spec_bound(),
            old(self).spec_queue().len() < old(self).spec_bound() ==> (r matches Ok(d) && d@ == (
            if old(self).spec_queue().len() == 0 {
                data@
            } else {
                old(self).spec_queue()[0]@
            }) && final(self).spec_queue() == old(self).spec_queue().push(data).drop_first()),
            old(self).spec_queue().len() == old(self).spec_bound() ==> (r matches Err(
                SecureError::PipelineError(m),
            ) && m@ == "Send timeout"@ && *final(self) == *old(self)),
            final(self).spec_bound() == old(self).spec_bound(),
    {
        proof {
            use_type_invariant(&*self);
        }
        if self.queue.len() == self.bound {
            return Err(SecureError::PipelineError(String::from_str("Send timeout")));
        }
        let mut queue: Vec<ClassifiedData> = Vec::new();
        core::mem::swap(&mut queue, &mut self.queue);
        queue.push(data);
        let item = queue.remove(0);
        self.queue = queue;
        Ok(item)
    }
}

} // verus!
