//! The life of one unit as a state machine: spawned, queued for admission,
//! admitted, running the executor, done. The transitions follow the per-task
//! protocol: cancellation check, admission, cancellation re-check, executor
//! invocation, classification. No transition leaves a terminal state.

use vstd::prelude::*;

use crate::error::UnitError;
use crate::outcome::classify_spec;
use crate::outcome::classify_unit_result;
use crate::outcome::UnitOutcome;
use crate::outcome::UnitOutput;

verus! {

/// Where one unit's task stands.
#[derive(Debug, PartialEq, Eq)]
pub enum UnitState {
    /// Spawned; the first cancellation check has not happened yet.
    Created,
    /// Past the first cancellation check; waiting for an admission permit.
    Queued,
    /// Holding a permit; the cancellation re-check has not happened yet.
    Admitted,
    /// Past the re-check; the executor has been invoked.
    Running,
    /// Terminal: the unit's outcome has been published.
    Done(UnitOutcome),
}

/// What a unit's task observes at its suspension points.
#[derive(Debug, PartialEq, Eq)]
pub enum UnitEvent {
    /// A read of the cancellation signal, at either checkpoint.
    CancelCheck(bool),
    /// The admission controller handed out a permit.
    PermitGranted,
    /// The executor returned for this unit.
    ExecutorFinished(Result<UnitOutput, UnitError>),
}

impl UnitState {
    /// Whether this state is terminal.
    pub open spec fn is_terminal(self) -> bool {
        self is Done
    }
}

/// The transition relation of one unit's task. An event that does not fit
/// the current state leaves the state as it is; in particular no event
/// leaves a terminal state.
pub open spec fn advance_spec(s: UnitState, e: UnitEvent) -> UnitState {
    match (s, e) {
        (UnitState::Created, UnitEvent::CancelCheck(observed)) => if observed {
            UnitState::Done(UnitOutcome::Cancelled)
        } else {
            UnitState::Queued
        },
        (UnitState::Queued, UnitEvent::PermitGranted) => UnitState::Admitted,
        (UnitState::Admitted, UnitEvent::CancelCheck(observed)) => if observed {
            UnitState::Done(UnitOutcome::Cancelled)
        } else {
            UnitState::Running
        },
        (UnitState::Running, UnitEvent::ExecutorFinished(r)) => UnitState::Done(classify_spec(r)),
        (other, _) => other,
    }
}

/// Advances one unit's task by one observed event.
pub fn advance(s: UnitState, e: UnitEvent) -> (next: UnitState)
    ensures
        next == advance_spec(s, e),
{
    match (s, e) {
        (UnitState::Created, UnitEvent::CancelCheck(observed)) => {
            if observed {
                UnitState::Done(UnitOutcome::Cancelled)
            } else {
                UnitState::Queued
            }
        },
        (UnitState::Queued, UnitEvent::PermitGranted) => UnitState::Admitted,
        (UnitState::Admitted, UnitEvent::CancelCheck(observed)) => {
            if observed {
                UnitState::Done(UnitOutcome::Cancelled)
            } else {
                UnitState::Running
            }
        },
        (UnitState::Running, UnitEvent::ExecutorFinished(r)) => {
            UnitState::Done(classify_unit_result(r))
        },
        (other, _) => other,
    }
}

/// No transition leaves a terminal state.
pub proof fn lemma_terminal_stays(s: UnitState, e: UnitEvent)
    requires
        s.is_terminal(),
    ensures
        advance_spec(s, e) == s,
{
}

/// A unit that observes the cancellation signal at either checkpoint — before
/// queuing for admission, or right after being admitted — resolves to
/// `Cancelled` then and there: it never reaches the executor.
pub proof fn lemma_cancel_observed(s: UnitState, e: UnitEvent)
    requires
        s is Created || s is Admitted,
        e == UnitEvent::CancelCheck(true),
    ensures
        advance_spec(s, e) == UnitState::Done(UnitOutcome::Cancelled),
{
}

/// The only way into a successful terminal state is an executor result that
/// classified as a success, taken from the running state: a unit that never
/// ran the executor never resolves to `Success`.
pub proof fn lemma_success_needs_executor(s: UnitState, e: UnitEvent)
    requires
        advance_spec(s, e) matches UnitState::Done(UnitOutcome::Success(_)),
        !(s matches UnitState::Done(UnitOutcome::Success(_))),
    ensures
        s is Running,
        e matches UnitEvent::ExecutorFinished(r) && r is Ok,
{
}

} // verus!
