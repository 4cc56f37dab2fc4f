//! The cancellation signal: a write-once latch. Once set it never reverts,
//! and every unit that observes it before starting resolves without invoking
//! the executor.

use vstd::prelude::*;

verus! {

/// A one-shot cancellation latch for one job invocation. Setting it is
/// idempotent; reading it never blocks.
pub struct CancellationSignal {
    set: bool,
}

impl CancellationSignal {
    /// Whether the signal has been set.
    pub closed spec fn is_set_spec(&self) -> bool {
        self.set
    }

    /// A fresh, unset signal for one job invocation.
    pub fn new() -> (r: CancellationSignal)
        ensures
            !r.is_set_spec(),
    {
        CancellationSignal { set: false }
    }

    /// Sets the signal. Idempotent: a signal once set stays set.
    pub fn set(&mut self)
        ensures
            final(self).is_set_spec(),
    {
        self.set = true;
    }

    /// Reads the signal without blocking.
    pub fn is_set(&self) -> (r: bool)
        ensures
            r == self.is_set_spec(),
    {
        self.set
    }
}

} // verus!
