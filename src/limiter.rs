//! The admission limiter that bounds how many transfers run at once.

use vstd::prelude::*;

use crate::error::ConfigError;

verus! {

/// A counting limiter of fixed capacity: a slot is taken before a transfer does
/// any I/O and given back when it ends, whatever its outcome.
pub struct Limiter {
    capacity: usize,
    in_flight: usize,
}

impl Limiter {
    /// The limiter's invariant: at least one slot, and never more taken than
    /// there are.
    pub closed spec fn wf(&self) -> bool {
        1 <= self.capacity && self.in_flight <= self.capacity
    }

    /// The number of slots.
    pub closed spec fn cap(&self) -> nat {
        self.capacity as nat
    }

    /// The number of slots taken.
    pub closed spec fn held(&self) -> nat {
        self.in_flight as nat
    }

    /// A limiter with `capacity` free slots. A capacity of zero would admit
    /// nothing ever, and is refused.
    pub fn new(capacity: usize) -> (r: Result<Limiter, ConfigError>)
        ensures
            r is Err <==> capacity == 0,
            match r {
                Ok(l) => l.wf() && l.cap() == capacity && l.held() == 0,
                Err(e) => e == ConfigError::ZeroJobs,
            },
    {
        if capacity == 0 {
            Err(ConfigError::ZeroJobs)
        } else {
            Ok(Limiter { capacity, in_flight: 0 })
        }
    }

    /// The number of slots.
    pub fn capacity(&self) -> (r: usize)
        ensures
            r == self.cap(),
    {
        self.capacity
    }

    /// The number of slots taken.
    pub fn in_flight(&self) -> (r: usize)
        ensures
            r == self.held(),
    {
        self.in_flight
    }

    /// Takes a slot if one is free, and says whether it did.
    pub fn try_acquire(&mut self) -> (r: bool)
        requires
            old(self).wf(),
        ensures
            final(self).wf(),
            r == (old(self).held() < old(self).cap()),
            final(self).cap() == old(self).cap(),
            r ==> final(self).held() == old(self).held() + 1,
            !r ==> final(self).held() == old(self).held(),
    {
        if self.in_flight < self.capacity {
            self.in_flight = self.in_flight + 1;
            true
        } else {
            false
        }
    }

    /// Gives a taken slot back.
    pub fn release(&mut self)
        requires
            old(self).wf(),
            old(self).held() > 0,
        ensures
            final(self).wf(),
            final(self).cap() == old(self).cap(),
            final(self).held() == old(self).held() - 1,
    {
        self.in_flight = self.in_flight - 1;
    }
}

/// A well-formed limiter never has more slots taken than it has, and has at
/// least one; every operation above keeps a limiter well formed.
pub proof fn lemma_within_capacity(l: Limiter)
    requires
        l.wf(),
    ensures
        1 <= l.cap(),
        l.held() <= l.cap(),
{
}

} // verus!
