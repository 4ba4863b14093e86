//! Bounded FIFO queue of connection tokens.
//!
//! The inside node buffers outside-initiated data connections here until a
//! waiting local client claims one, and the signal notifications waiting for
//! the control writer live in a queue of the same shape.  The bound gives
//! natural backpressure: a producer facing a full queue must wait instead of
//! growing the queue without limit.  Entries are `u64` tokens; the front end
//! maps each token to the socket it stands for.

use vstd::prelude::*;

verus! {

/// Capacity of the pending-connection queue and of the signal queue.
pub const QUEUE_CAPACITY: usize = 100;

/// FIFO queue holding at most `QUEUE_CAPACITY` tokens.
pub struct PendingQueue {
    items: Vec<u64>,
}

impl PendingQueue {
    /// The queued tokens, front first.
    pub closed spec fn view(&self) -> Seq<u64> {
        self.items@
    }

    /// The bound that every operation preserves.
    pub open spec fn wf(&self) -> bool {
        self@.len() <= QUEUE_CAPACITY
    }

    /// An empty queue.
    pub fn new() -> (q: PendingQueue)
        ensures
            q@ =~= Seq::<u64>::empty(),
            q.wf(),
    {
        PendingQueue { items: Vec::new() }
    }

    pub fn len(&self) -> (n: usize)
        ensures
            n == self@.len(),
    {
        self.items.len()
    }

    pub fn is_empty(&self) -> (e: bool)
        ensures
            e == (self@.len() == 0),
    {
        self.items.len() == 0
    }

    pub fn is_full(&self) -> (f: bool)
        ensures
            f == (self@.len() == QUEUE_CAPACITY),
    {
        self.items.len() == QUEUE_CAPACITY
    }

    /// Enqueue a token at the back.  A full queue refuses the token and is
    /// left unchanged: the caller must block until room appears.
    pub fn push_back(&mut self, id: u64) -> (accepted: bool)
        requires
            old(self).wf(),
        ensures
            final(self).wf(),
            accepted == (old(self)@.len() < QUEUE_CAPACITY),
            accepted ==> final(self)@ =~= old(self)@.push(id),
            !accepted ==> final(self)@ =~= old(self)@,
    {
        if self.items.len() < QUEUE_CAPACITY {
            self.items.push(id);
            true
        } else {
            false
        }
    }

    /// Dequeue the token that has waited longest.  Arrival order is kept:
    /// the front leaves first, the rest keep their relative order.
    pub fn pop_front(&mut self) -> (front: Option<u64>)
        requires
            old(self).wf(),
        ensures
            final(self).wf(),
            old(self)@.len() == 0 ==> front is None && final(self)@ =~= old(self)@,
            old(self)@.len() > 0 ==> front == Some(old(self)@[0]) && final(self)@ =~= old(
                self,
            )@.skip(1),
    {
        if self.items.len() == 0 {
            None
        } else {
            let id = self.items.remove(0);
            Some(id)
        }
    }
}

} // verus!
