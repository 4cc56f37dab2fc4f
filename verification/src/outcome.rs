//! Per-unit results: the opaque output payload, the four terminal outcomes of
//! one unit, and the classification of an executor result into an outcome.

use vstd::prelude::*;

use crate::error::UnitError;

verus! {

/// The output of one successfully executed unit: the serialized proof
/// payload. The pipeline never looks inside it; it only fingerprints it.
#[derive(Debug, Clone, PartialEq, Eq)]
pub struct UnitOutput {
    /// The opaque payload bytes.
    pub bytes: Vec<u8>,
}

/// The terminal outcome of one unit. Exactly one is produced per unit input.
#[derive(Debug, Clone, PartialEq, Eq)]
pub enum UnitOutcome {
    /// The unit executed and its result validated.
    Success(UnitOutput),
    /// The unit failed in a way scoped to itself; the job goes on.
    Recoverable(UnitError),
    /// The unit failed in a way that invalidates the whole job.
    Fatal(UnitError),
    /// The unit observed the cancellation signal and never invoked the
    /// executor.
    Cancelled,
}

/// What outcome an executor result is classified into: a success keeps its
/// output, a recoverable error is batched, everything else is fatal.
pub open spec fn classify_spec(r: Result<UnitOutput, UnitError>) -> UnitOutcome {
    match r {
        Ok(out) => UnitOutcome::Success(out),
        Err(e) => if e.is_recoverable_spec() {
            UnitOutcome::Recoverable(e)
        } else {
            UnitOutcome::Fatal(e)
        },
    }
}

/// Classifies the result of one unit executor invocation into the unit's
/// terminal outcome.
pub fn classify_unit_result(r: Result<UnitOutput, UnitError>) -> (oc: UnitOutcome)
    ensures
        oc == classify_spec(r),
{
    match r {
        Ok(out) => UnitOutcome::Success(out),
        Err(e) => {
            if e.is_recoverable() {
                UnitOutcome::Recoverable(e)
            } else {
                UnitOutcome::Fatal(e)
            }
        },
    }
}

} // verus!
