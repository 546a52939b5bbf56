//! Counting the requests in flight, so that a connection knows when it is
//! quiescent.
use vstd::prelude::*;

verus! {

/// The number of requests in flight that hold a guard.
pub struct IdleState {
    pub count: u64,
}

impl IdleState {
    pub fn new() -> (r: IdleState)
        ensures
            r.count == 0,
    {
        IdleState { count: 0 }
    }

    /// Takes a guard for a request going in flight.
    pub fn guard(&mut self)
        requires
            old(self).count < u64::MAX,
        ensures
            final(self).count == old(self).count + 1,
    {
        self.count = self.count + 1;
    }

    /// Gives back the guard of a request that completed.
    pub fn release(&mut self)
        requires
            old(self).count > 0,
        ensures
            final(self).count == old(self).count - 1,
    {
        self.count = self.count - 1;
    }

    /// Whether no guarded request is in flight.
    pub fn is_idle(&self) -> (r: bool)
        ensures
            r == (self.count == 0),
    {
        self.count == 0
    }
}

} // verus!
