//! The bounded handoff queue: a single slot carrying a ready
//! connection/session handle from a pool manager to its worker tasks.
//!
//! Capacity one is the engine's sole backpressure mechanism: a manager that
//! has published a handle cannot publish a second one until a worker has
//! taken the first.
use vstd::prelude::*;

verus! {

/// A queue of capacity one.  The slot is the whole state: the queue can never
/// hold more than one handle, by construction.
pub struct HandoffQueue<T> {
    pub slot: Option<T>,
}

/// The state and acceptance flag after offering a handle to a queue: a full
/// queue refuses the handle and keeps its state; an empty queue stores it.
pub open spec fn spec_publish<T>(q: HandoffQueue<T>, h: T) -> (HandoffQueue<T>, bool) {
    match q.slot {
        Some(_) => (q, false),
        None => (HandoffQueue { slot: Some(h) }, true),
    }
}

impl<T> HandoffQueue<T> {
    /// How many handles the queue holds.
    pub open spec fn len(&self) -> nat {
        match self.slot {
            Some(_) => 1,
            None => 0,
        }
    }

    /// An empty queue.
    pub fn new() -> (q: Self)
        ensures
            q.len() == 0,
    {
        HandoffQueue { slot: None }
    }

    /// Offer a handle.  A full queue hands it back unchanged: the caller must
    /// wait until a consumer has taken the stored handle, which is the
    /// backpressure the engine relies on.
    pub fn publish(&mut self, h: T) -> (r: Result<(), T>)
        ensures
            *final(self) == spec_publish(*old(self), h).0,
            r is Ok <==> spec_publish(*old(self), h).1,
            r matches Err(back) ==> back == h && *final(self) == *old(self),
    {
        match &self.slot {
            Some(_) => Err(h),
            None => {
                self.slot = Some(h);
                Ok(())
            },
        }
    }

    /// Take the stored handle, if any, leaving the queue empty.
    pub fn take(&mut self) -> (r: Option<T>)
        ensures
            final(self).slot is None,
            r == old(self).slot,
    {
        self.slot.take()
    }
}

/// Law: the handoff queue never holds more than one ready handle, and
/// publishing into a full queue changes nothing until the stored handle is
/// consumed.
pub proof fn lemma_handoff_backpressure<T>(q: HandoffQueue<T>, h: T)
    ensures
        q.len() <= 1,
        q.len() == 1 ==> spec_publish(q, h) == (q, false),
        q.len() == 0 ==> spec_publish(q, h).0.len() == 1 && spec_publish(q, h).1,
{
}

} // verus!
