//! The admission gate: a counting-semaphore model that bounds how many
//! remote calls may be in flight at once. Callers acquire one permit per
//! remote call and release it when the call completes, so the in-flight
//! count never exceeds the configured capacity.

use vstd::prelude::*;

verus! {

/// Permit accounting for a fixed-capacity admission gate.
pub struct AdmissionGate {
    capacity: usize,
    in_flight: usize,
}

impl AdmissionGate {
    /// The total number of permits, fixed at construction.
    pub closed spec fn capacity(self) -> nat {
        self.capacity as nat
    }

    /// How many permits are currently held.
    pub closed spec fn in_flight(self) -> nat {
        self.in_flight as nat
    }

    /// At no time are more permits held than the capacity allows.
    pub open spec fn wf(self) -> bool {
        self.in_flight() <= self.capacity()
    }

    /// A gate with the given capacity and no permit held.
    pub fn new(capacity: usize) -> (g: AdmissionGate)
        ensures
            g.wf(),
            g.capacity() == capacity,
            g.in_flight() == 0,
    {
        AdmissionGate { capacity, in_flight: 0 }
    }

    /// Takes one permit when one is available; otherwise changes nothing
    /// and reports that the caller must wait.
    pub fn try_acquire(&mut self) -> (granted: bool)
        requires
            old(self).wf(),
        ensures
            final(self).wf(),
            final(self).capacity() == old(self).capacity(),
            granted == (old(self).in_flight() < old(self).capacity()),
            granted ==> final(self).in_flight() == old(self).in_flight() + 1,
            !granted ==> final(self).in_flight() == old(self).in_flight(),
    {
        if self.in_flight < self.capacity {
            self.in_flight = self.in_flight + 1;
            true
        } else {
            false
        }
    }

    /// Returns one held permit.
    pub fn release(&mut self)
        requires
            old(self).wf(),
            old(self).in_flight() > 0,
        ensures
            final(self).wf(),
            final(self).capacity() == old(self).capacity(),
            final(self).in_flight() == old(self).in_flight() - 1,
    {
        self.in_flight = self.in_flight - 1;
    }

    /// How many permits are free.
    pub fn available(&self) -> (n: usize)
        requires
            self.wf(),
        ensures
            n == self.capacity() - self.in_flight(),
    {
        self.capacity - self.in_flight
    }

    /// How many permits are held.
    pub fn held(&self) -> (n: usize)
        ensures
            n == self.in_flight(),
    {
        self.in_flight
    }
}

} // verus!
