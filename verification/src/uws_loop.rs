//! The loop's deferred-callback queue: the one sanctioned cross-thread
//! entry point.  A worker enqueues a closure (named here by its token); the
//! loop thread runs the queued closures during its next iteration, in
//! enqueue order relative to each other.

use vstd::prelude::*;

verus! {

/// FIFO queue of deferred callbacks awaiting the next loop iteration.
pub struct DeferQueue {
    pub pending: Vec<u64>,
}

impl DeferQueue {
    /// An empty queue.
    pub fn new() -> (r: DeferQueue)
        ensures
            r.pending@.len() == 0,
    {
        DeferQueue { pending: Vec::new() }
    }

    /// Enqueue the closure registered under `callback` for the next loop
    /// iteration.
    pub fn defer(&mut self, callback: u64)
        ensures
            final(self).pending@ == old(self).pending@.push(callback),
    {
        self.pending.push(callback);
    }

    /// Take the next deferred closure, oldest first; the loop thread
    /// invokes it and its box is reclaimed with this removal.
    pub fn take_next(&mut self) -> (r: Option<u64>)
        ensures
            old(self).pending@.len() == 0 ==> r is None && *final(self) == *old(self),
            old(self).pending@.len() > 0 ==> {
                &&& r == Some(old(self).pending@[0])
                &&& final(self).pending@ == old(self).pending@.skip(1)
            },
    {
        if self.pending.len() == 0 {
            None
        } else {
            let first = self.pending.remove(0);
            proof {
                assert(final(self).pending@ =~= old(self).pending@.skip(1));
            }
            Some(first)
        }
    }
}

/// Deferred callbacks run in enqueue order relative to each other: two
/// closures deferred in turn onto an idle queue are taken in that same
/// order, because enqueueing appends at the back and the loop takes from
/// the front.
pub proof fn lemma_defer_fifo(a: u64, b: u64)
    ensures
        Seq::<u64>::empty().push(a).push(b)[0] == a,
        Seq::<u64>::empty().push(a).push(b).skip(1)[0] == b,
{
}

} // verus!
