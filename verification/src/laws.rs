//! Job-level guarantees, proved once over the pipeline's model: a clean run
//! succeeds with one fingerprint per unit in input order; the earliest fatal
//! failure wins and cancels every unit after it; recoverable failures are
//! counted only after every unit was attempted; the first-only combination
//! rule reads nothing but the first fingerprint.

use vstd::prelude::*;

use crate::collector::cancelled_count;
use crate::collector::first_fatal_of;
use crate::collector::lemma_cancelled_count_zero;
use crate::collector::lemma_first_fatal_is_first;
use crate::collector::lemma_first_fatal_none;
use crate::collector::recoverables_of;
use crate::collector::successes_of;
use crate::error::UnitError;
use crate::outcome::classify_spec;
use crate::outcome::UnitOutcome;
use crate::outcome::UnitOutput;
use crate::pipeline::combine_spec;
use crate::pipeline::halted_before;
use crate::pipeline::planned_outcome;
use crate::pipeline::planned_outcomes;
use crate::task::TaskType;

verus! {

/// How many executor results are failures.
pub open spec fn err_count(rs: Seq<Result<UnitOutput, UnitError>>) -> nat
    decreases rs.len(),
{
    if rs.len() == 0 {
        0
    } else {
        err_count(rs.drop_last()) + (if rs.last() is Err {
            1nat
        } else {
            0nat
        })
    }
}

/// Every success in an all-success outcome sequence stands at its own index:
/// the collector keeps both the count and the order of the inputs.
proof fn lemma_successes_all(s: Seq<UnitOutcome>)
    requires
        forall|j: int| 0 <= j < s.len() ==> s[j] is Success,
    ensures
        successes_of(s).len() == s.len(),
        forall|j: int|
            0 <= j < s.len() ==> ((#[trigger] s[j]) matches UnitOutcome::Success(o)
                && successes_of(s)[j] == o),
    decreases s.len(),
{
    if s.len() > 0 {
        assert(forall|j: int| 0 <= j < s.len() - 1 ==> s.drop_last()[j] == s[j]);
        lemma_successes_all(s.drop_last());
    }
}

/// Dropping the last executor result does not change the outcome of any
/// earlier unit: an outcome depends on its own result and the earlier ones.
proof fn lemma_planned_prefix(rs: Seq<Result<UnitOutput, UnitError>>)
    requires
        rs.len() > 0,
    ensures
        planned_outcomes(rs).drop_last() =~= planned_outcomes(rs.drop_last()),
{
    let prefix = rs.drop_last();
    assert forall|j: int| 0 <= j < rs.len() - 1 implies planned_outcome(rs, j) == planned_outcome(
        prefix,
        j,
    ) by {
        if halted_before(rs, j) {
            let w = choose|w: int| 0 <= w < j && classify_spec(rs[w]) is Fatal;
            assert(classify_spec(prefix[w]) is Fatal);
            assert(halted_before(prefix, j));
        }
        if halted_before(prefix, j) {
            let w = choose|w: int| 0 <= w < j && classify_spec(prefix[w]) is Fatal;
            assert(classify_spec(rs[w]) is Fatal);
            assert(halted_before(rs, j));
        }
    }
}

/// When no executor result classifies as fatal, the planned outcomes carry
/// exactly one recoverable failure per failed result.
proof fn lemma_recoverable_count(rs: Seq<Result<UnitOutput, UnitError>>)
    requires
        forall|j: int|
            0 <= j < rs.len() ==> ((#[trigger] rs[j]) matches Err(e) ==> e.is_recoverable_spec()),
    ensures
        recoverables_of(planned_outcomes(rs)).len() == err_count(rs),
    decreases rs.len(),
{
    if rs.len() == 0 {
        assert(planned_outcomes(rs) =~= Seq::<UnitOutcome>::empty());
    } else {
        let prefix = rs.drop_last();
        assert(forall|j: int| 0 <= j < prefix.len() ==> prefix[j] == rs[j]);
        lemma_recoverable_count(prefix);
        lemma_planned_prefix(rs);
        let all = planned_outcomes(rs);
        assert(all.len() == rs.len());
        assert(!halted_before(rs, rs.len() - 1)) by {
            if halted_before(rs, rs.len() - 1) {
                let w = choose|w: int|
                    0 <= w < rs.len() - 1 && classify_spec(rs[w]) is Fatal;
                assert(rs[w] matches Err(e) ==> e.is_recoverable_spec());
            }
        }
        assert(all.last() == classify_spec(rs.last()));
        assert(recoverables_of(all.drop_last()) == recoverables_of(planned_outcomes(prefix)));
    }
}

/// When every unit's executor result is a success, the job runs clean: no
/// fatal failure, no recoverable failure, no cancellation, and the collected
/// outputs are exactly the executor outputs, one per unit, in input order.
/// Together with the pipeline's contract, a job run over such results
/// returns a success whose fingerprint list has one entry per unit, in input
/// order.
pub proof fn lemma_all_success(rs: Seq<Result<UnitOutput, UnitError>>)
    requires
        forall|j: int| 0 <= j < rs.len() ==> rs[j] is Ok,
    ensures
        first_fatal_of(planned_outcomes(rs)) is None,
        recoverables_of(planned_outcomes(rs)).len() == 0,
        cancelled_count(planned_outcomes(rs)) == 0,
        successes_of(planned_outcomes(rs)).len() == rs.len(),
        forall|j: int|
            0 <= j < rs.len() ==> ((#[trigger] rs[j]) matches Ok(out) && successes_of(
                planned_outcomes(rs),
            )[j] == out),
{
    let oseq = planned_outcomes(rs);
    assert forall|j: int| 0 <= j < oseq.len() implies oseq[j] == classify_spec(rs[j]) by {
        if halted_before(rs, j) {
            let w = choose|w: int| 0 <= w < j && classify_spec(rs[w]) is Fatal;
            assert(rs[w] is Ok);
        }
    }
    lemma_first_fatal_none(oseq);
    lemma_cancelled_count_zero(oseq);
    lemma_successes_all(oseq);
    lemma_recoverable_count(rs);
    lemma_err_count_all_ok(rs);
    assert forall|j: int| 0 <= j < rs.len() implies ((#[trigger] rs[j]) matches Ok(out)
        && successes_of(oseq)[j] == out) by {
        assert(oseq[j] == classify_spec(rs[j]));
        assert(oseq[j] matches UnitOutcome::Success(o) && successes_of(oseq)[j] == o);
    }
}

/// A result table without failures has a failure count of zero.
proof fn lemma_err_count_all_ok(rs: Seq<Result<UnitOutput, UnitError>>)
    requires
        forall|j: int| 0 <= j < rs.len() ==> rs[j] is Ok,
    ensures
        err_count(rs) == 0,
    decreases rs.len(),
{
    if rs.len() > 0 {
        assert(forall|j: int| 0 <= j < rs.len() - 1 ==> rs.drop_last()[j] == rs[j]);
        lemma_err_count_all_ok(rs.drop_last());
    }
}

/// The earliest fatal executor result decides the job: its unit's outcome is
/// that fatal failure, it is the failure the collector reports, and every
/// unit after it resolves to `Cancelled` — none of them reaches `Success`.
/// Together with the pipeline's contract, the job's result is that fatal
/// error.
pub proof fn lemma_first_fatal_wins(rs: Seq<Result<UnitOutput, UnitError>>, i: int)
    requires
        0 <= i < rs.len(),
        classify_spec(rs[i]) is Fatal,
        forall|j: int| 0 <= j < i ==> !(classify_spec(rs[j]) is Fatal),
    ensures
        planned_outcomes(rs)[i] == classify_spec(rs[i]),
        classify_spec(rs[i]) matches UnitOutcome::Fatal(e) && first_fatal_of(planned_outcomes(rs))
            == Some(e),
        forall|j: int| i < j < rs.len() ==> planned_outcomes(rs)[j] == UnitOutcome::Cancelled,
{
    let oseq = planned_outcomes(rs);
    assert(!halted_before(rs, i)) by {
        if halted_before(rs, i) {
            let w = choose|w: int| 0 <= w < i && classify_spec(rs[w]) is Fatal;
            assert(!(classify_spec(rs[w]) is Fatal));
        }
    }
    assert forall|j: int| 0 <= j < i implies !(oseq[j] is Fatal) by {
        if !halted_before(rs, j) {
            assert(oseq[j] == classify_spec(rs[j]));
        }
    }
    assert forall|j: int| i < j < rs.len() implies oseq[j] == UnitOutcome::Cancelled by {
        assert(0 <= i < j && classify_spec(rs[i]) is Fatal);
        assert(halted_before(rs, j));
    }
    lemma_first_fatal_is_first(oseq, i);
}

/// When every failed executor result is recoverable, the job sees no fatal
/// failure and no cancellation, and the recoverable failures it counts are
/// exactly the failed results — counted only once every unit was attempted.
/// Together with the pipeline's contract, a job run over such results with
/// at least one failure returns the count of the failed units.
pub proof fn lemma_recoverables_batched(rs: Seq<Result<UnitOutput, UnitError>>)
    requires
        forall|j: int|
            0 <= j < rs.len() ==> ((#[trigger] rs[j]) matches Err(e) ==> e.is_recoverable_spec()),
    ensures
        first_fatal_of(planned_outcomes(rs)) is None,
        cancelled_count(planned_outcomes(rs)) == 0,
        recoverables_of(planned_outcomes(rs)).len() == err_count(rs),
{
    let oseq = planned_outcomes(rs);
    assert forall|j: int| 0 <= j < oseq.len() implies !(oseq[j] is Fatal) && !(oseq[j] is Cancelled) by {
        if halted_before(rs, j) {
            let w = choose|w: int| 0 <= w < j && classify_spec(rs[w]) is Fatal;
            assert(rs[w] matches Err(e) ==> e.is_recoverable_spec());
        }
        assert(oseq[j] == classify_spec(rs[j]));
    }
    lemma_first_fatal_none(oseq);
    lemma_cancelled_count_zero(oseq);
    lemma_recoverable_count(rs);
}

/// Under a job kind that does not chain, the combined fingerprint reads
/// nothing but the first fingerprint: any two non-empty fingerprint
/// sequences that agree on their first entry combine to the same value.
pub proof fn lemma_first_only_combine(t: TaskType, hs1: Seq<Seq<char>>, hs2: Seq<Seq<char>>)
    requires
        !t.combines_all(),
        hs1.len() > 0,
        hs2.len() > 0,
        hs1[0] == hs2[0],
    ensures
        combine_spec(t, hs1) == combine_spec(t, hs2),
{
}

} // verus!
