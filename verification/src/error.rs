//! The failure taxonomy: per-unit errors and their classification, and the
//! job-level error that the caller receives.

use vstd::prelude::*;

verus! {

/// A failure of one unit of work, as reported by the unit executor or by the
/// input validator. Verification and guest-computation failures mean that the
/// unit's result did not validate; the job may still attempt the other units.
/// Every other kind means that the job itself cannot proceed.
#[derive(Debug, Clone, PartialEq, Eq)]
pub enum UnitError {
    /// The unit input was malformed or missing. Fatal.
    Validation(String),
    /// The unit's proof did not verify. Recoverable.
    Verification(String),
    /// The guest computation itself failed. Recoverable.
    GuestComputation(String),
    /// The machinery around the unit failed: a task could not be joined, a
    /// resource ran out. Fatal.
    Infrastructure(String),
}

impl UnitError {
    /// Whether this failure is scoped to its unit: the job goes on attempting
    /// the other units, and the failure is batched for side-reporting.
    pub open spec fn is_recoverable_spec(&self) -> bool {
        self is Verification || self is GuestComputation
    }

    /// Classifies this failure: recoverable failures leave the job running,
    /// every other failure cancels the units that have not started yet.
    pub fn is_recoverable(&self) -> (r: bool)
        ensures
            r == self.is_recoverable_spec(),
    {
        match self {
            UnitError::Verification(_) => true,
            UnitError::GuestComputation(_) => true,
            _ => false,
        }
    }
}

/// The single job-level error that the caller receives when the job did not
/// produce a combined result.
#[derive(Debug, Clone, PartialEq, Eq)]
pub enum JobError {
    /// The concurrency limit was not a positive number; nothing was attempted.
    Configuration,
    /// The job carried no unit inputs; nothing was attempted.
    EmptyJob,
    /// The job was cancelled before every unit could be attempted.
    Cancelled(String),
    /// This many units failed recoverably; every unit was attempted, and no
    /// fatal failure occurred.
    PartialVerificationFailure(usize),
    /// The first fatal failure that any unit produced.
    Fatal(UnitError),
}

} // verus!
