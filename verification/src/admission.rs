//! The admission controller: a counting model of the worker pool's
//! concurrency slots. The number of outstanding permits never exceeds the
//! configured limit.

use vstd::prelude::*;

verus! {

/// Bounds how many unit executor invocations may be in flight at once. A
/// permit is taken before a unit's executor is invoked and given back when
/// its critical section ends, on success, failure or cancellation alike.
pub struct AdmissionController {
    limit: usize,
    outstanding: usize,
}

impl AdmissionController {
    /// The configured concurrency limit.
    pub closed spec fn limit(&self) -> nat {
        self.limit as nat
    }

    /// How many permits are currently out.
    pub closed spec fn outstanding(&self) -> nat {
        self.outstanding as nat
    }

    /// The controller's invariant: the limit is positive and is never
    /// exceeded by the outstanding permits.
    pub open spec fn wf(&self) -> bool {
        1 <= self.limit() && self.outstanding() <= self.limit()
    }

    /// Configures a controller with a positive concurrency limit and no
    /// permit out.
    pub fn new(limit: usize) -> (r: AdmissionController)
        requires
            limit >= 1,
        ensures
            r.wf(),
            r.limit() == limit,
            r.outstanding() == 0,
    {
        AdmissionController { limit, outstanding: 0 }
    }

    /// Hands out a permit exactly when a slot is free.
    pub fn try_acquire(&mut self) -> (granted: bool)
        requires
            old(self).wf(),
        ensures
            final(self).wf(),
            final(self).limit() == old(self).limit(),
            granted == (old(self).outstanding() < old(self).limit()),
            granted ==> final(self).outstanding() == old(self).outstanding() + 1,
            !granted ==> final(self).outstanding() == old(self).outstanding(),
    {
        if self.outstanding < self.limit {
            self.outstanding = self.outstanding + 1;
            true
        } else {
            false
        }
    }

    /// Gives a permit back.
    pub fn release(&mut self)
        requires
            old(self).wf(),
            old(self).outstanding() >= 1,
        ensures
            final(self).wf(),
            final(self).limit() == old(self).limit(),
            final(self).outstanding() == old(self).outstanding() - 1,
    {
        self.outstanding = self.outstanding - 1;
    }
}

/// However a well-formed controller came about, the permits out never exceed
/// the configured limit.
pub proof fn lemma_admission_bounded(a: AdmissionController)
    requires
        a.wf(),
    ensures
        a.outstanding() <= a.limit(),
{
}

} // verus!
