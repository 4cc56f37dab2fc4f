//! The result collector: partitions the ordered per-unit outcomes into the
//! ordered successes with their fingerprints, the recoverable failures to be
//! batched, the first fatal failure, and the cancelled units; then turns the
//! partition into the single job-level verdict.

use vstd::prelude::*;

use vstd::string::StringExecFns;

use crate::error::JobError;
use crate::error::UnitError;
use crate::hashing::fingerprint_spec;
use crate::hashing::keccak_hex;
use crate::outcome::UnitOutcome;
use crate::outcome::UnitOutput;
use crate::pipeline::combine_spec;
use crate::pipeline::JobResult;
use crate::pipeline::ProvingPipeline;
use crate::task::Task;

verus! {

/// The successful outputs of an outcome sequence, in input order.
pub open spec fn successes_of(s: Seq<UnitOutcome>) -> Seq<UnitOutput>
    decreases s.len(),
{
    if s.len() == 0 {
        Seq::<UnitOutput>::empty()
    } else {
        successes_of(s.drop_last()) + (match s.last() {
            UnitOutcome::Success(out) => seq![out],
            _ => Seq::<UnitOutput>::empty(),
        })
    }
}

/// The recoverable failures of an outcome sequence, each with the index of
/// its unit, in input order.
pub open spec fn recoverables_of(s: Seq<UnitOutcome>) -> Seq<(usize, UnitError)>
    decreases s.len(),
{
    if s.len() == 0 {
        Seq::<(usize, UnitError)>::empty()
    } else {
        recoverables_of(s.drop_last()) + (match s.last() {
            UnitOutcome::Recoverable(e) => seq![(((s.len() - 1) as usize), e)],
            _ => Seq::<(usize, UnitError)>::empty(),
        })
    }
}

/// The first fatal failure of an outcome sequence, if any.
pub open spec fn first_fatal_of(s: Seq<UnitOutcome>) -> Option<UnitError>
    decreases s.len(),
{
    if s.len() == 0 {
        None
    } else {
        match first_fatal_of(s.drop_last()) {
            Some(e) => Some(e),
            None => match s.last() {
                UnitOutcome::Fatal(e) => Some(e),
                _ => None,
            },
        }
    }
}

/// How many units of an outcome sequence were cancelled.
pub open spec fn cancelled_count(s: Seq<UnitOutcome>) -> nat
    decreases s.len(),
{
    if s.len() == 0 {
        0
    } else {
        cancelled_count(s.drop_last()) + (if s.last() is Cancelled {
            1nat
        } else {
            0nat
        })
    }
}

/// An outcome sequence with no fatal outcome has no first fatal failure, and
/// the other way round.
pub proof fn lemma_first_fatal_none(s: Seq<UnitOutcome>)
    ensures
        first_fatal_of(s) is None <==> (forall|j: int| 0 <= j < s.len() ==> !(s[j] is Fatal)),
    decreases s.len(),
{
    if s.len() > 0 {
        lemma_first_fatal_none(s.drop_last());
        assert(forall|j: int| 0 <= j < s.len() - 1 ==> s.drop_last()[j] == s[j]);
    }
}

/// An outcome sequence with no cancelled outcome has cancelled count zero,
/// and the other way round.
pub proof fn lemma_cancelled_count_zero(s: Seq<UnitOutcome>)
    ensures
        cancelled_count(s) == 0 <==> (forall|j: int| 0 <= j < s.len() ==> !(s[j] is Cancelled)),
    decreases s.len(),
{
    if s.len() > 0 {
        lemma_cancelled_count_zero(s.drop_last());
        assert(forall|j: int| 0 <= j < s.len() - 1 ==> s.drop_last()[j] == s[j]);
    }
}

/// The fatal failure reported for an outcome sequence is the one of the
/// earliest fatal outcome.
pub proof fn lemma_first_fatal_is_first(s: Seq<UnitOutcome>, i: int)
    requires
        0 <= i < s.len(),
        s[i] is Fatal,
        forall|j: int| 0 <= j < i ==> !(s[j] is Fatal),
    ensures
        s[i] matches UnitOutcome::Fatal(e) && first_fatal_of(s) == Some(e),
    decreases s.len(),
{
    if i == s.len() - 1 {
        lemma_first_fatal_none(s.drop_last());
        assert(forall|j: int| 0 <= j < s.len() - 1 ==> s.drop_last()[j] == s[j]);
    } else {
        lemma_first_fatal_is_first(s.drop_last(), i);
    }
}

/// What the collector hands on: the ordered successes and their
/// fingerprints, the recoverable failures for the batcher, the first fatal
/// failure, and the number of cancelled units.
pub struct Partition {
    /// The successful outputs, in input order.
    pub successes: Vec<UnitOutput>,
    /// The fingerprint of each successful output, in the same order.
    pub fingerprints: Vec<String>,
    /// The recoverable failures with their unit indexes, in input order;
    /// each is reported once over the side-channel.
    pub recoverable: Vec<(usize, UnitError)>,
    /// The earliest fatal failure, if any unit produced one.
    pub first_fatal: Option<UnitError>,
    /// How many units resolved to `Cancelled`.
    pub cancelled: usize,
}

/// Partitions the ordered outcomes of all units. Successes keep their input
/// order and are fingerprinted; recoverable failures keep their unit index;
/// of the fatal failures the earliest is kept.
pub fn partition_outcomes(outcomes: Vec<UnitOutcome>) -> (p: Partition)
    ensures
        p.successes@ == successes_of(outcomes@),
        p.fingerprints@.len() == successes_of(outcomes@).len(),
        forall|j: int|
            0 <= j < p.fingerprints@.len() ==> p.fingerprints@[j]@ == fingerprint_spec(
                successes_of(outcomes@)[j],
            ),
        forall|j: int| 0 <= j < p.fingerprints@.len() ==> p.fingerprints@[j]@.len() == 64,
        p.recoverable@ == recoverables_of(outcomes@),
        p.first_fatal == first_fatal_of(outcomes@),
        p.cancelled == cancelled_count(outcomes@),
{
    let ghost orig = outcomes@;
    let mut outcomes = outcomes;
    proof {
        assert(orig.len() == outcomes.len());
    }
    let mut successes: Vec<UnitOutput> = Vec::new();
    let mut fingerprints: Vec<String> = Vec::new();
    let mut recoverable: Vec<(usize, UnitError)> = Vec::new();
    let mut first_fatal: Option<UnitError> = None;
    let mut cancelled: usize = 0;
    let mut i: usize = 0;
    while outcomes.len() > 0
        invariant
            orig.len() <= usize::MAX,
            i + outcomes@.len() == orig.len(),
            outcomes@ == orig.skip(i as int),
            successes@ == successes_of(orig.take(i as int)),
            fingerprints@.len() == successes@.len(),
            forall|j: int|
                0 <= j < fingerprints@.len() ==> fingerprints@[j]@ == fingerprint_spec(
                    successes@[j],
                ),
            forall|j: int| 0 <= j < fingerprints@.len() ==> fingerprints@[j]@.len() == 64,
            recoverable@ == recoverables_of(orig.take(i as int)),
            first_fatal == first_fatal_of(orig.take(i as int)),
            cancelled <= i,
            cancelled == cancelled_count(orig.take(i as int)),
        decreases outcomes@.len(),
    {
        let oc = outcomes.remove(0);
        proof {
            assert(oc == orig[i as int]);
            assert(outcomes@ =~= orig.skip(i as int + 1));
            assert(orig.take(i as int + 1).drop_last() =~= orig.take(i as int));
            assert(orig.take(i as int + 1).last() == orig[i as int]);
        }
        match oc {
            UnitOutcome::Success(out) => {
                let fp = keccak_hex(&out.bytes);
                successes.push(out);
                fingerprints.push(fp);
                proof {
                    assert(successes@ =~= successes_of(orig.take(i as int + 1)));
                }
            },
            UnitOutcome::Recoverable(e) => {
                recoverable.push((i, e));
                proof {
                    assert(recoverable@ =~= recoverables_of(orig.take(i as int + 1)));
                }
            },
            UnitOutcome::Fatal(e) => {
                if first_fatal.is_none() {
                    first_fatal = Some(e);
                }
            },
            UnitOutcome::Cancelled => {
                cancelled = cancelled + 1;
            },
        }
        i = i + 1;
    }
    proof {
        assert(orig.take(orig.len() as int) =~= orig);
    }
    Partition { successes, fingerprints, recoverable, first_fatal, cancelled }
}

/// Reduces a partition to the single job-level result. A fatal failure wins
/// over everything; cancellation wins over recoverable failures; any
/// recoverable failure fails the job with its count; otherwise the
/// fingerprints are combined by the job-kind rule.
pub fn job_verdict(task: &Task, p: Partition) -> (r: Result<JobResult, JobError>)
    ensures
        p.first_fatal matches Some(e) ==> r == Err::<JobResult, JobError>(JobError::Fatal(e)),
        p.first_fatal is None && p.cancelled > 0 ==> (r matches Err(je)
            && je matches JobError::Cancelled(m) && m@ == "job cancelled before completion"@),
        p.first_fatal is None && p.cancelled == 0 && p.recoverable@.len() > 0 ==> r
            == Err::<JobResult, JobError>(
            JobError::PartialVerificationFailure(p.recoverable@.len() as usize),
        ),
        p.first_fatal is None && p.cancelled == 0 && p.recoverable@.len() == 0 ==> (r matches Ok(jr)
            && jr.outputs@ == p.successes@ && jr.fingerprints@ == p.fingerprints@
            && jr.combined_fingerprint@ == combine_spec(
            task.task_type,
            p.fingerprints.deep_view(),
        )),
{
    match p.first_fatal {
        Some(e) => Err(JobError::Fatal(e)),
        None => {
            if p.cancelled > 0 {
                Err(JobError::Cancelled(String::from_str("job cancelled before completion")))
            } else {
                let k = p.recoverable.len();
                if k > 0 {
                    Err(JobError::PartialVerificationFailure(k))
                } else {
                    let combined = ProvingPipeline::combine_proof_hashes(task, &p.fingerprints);
                    Ok(
                        JobResult {
                            outputs: p.successes,
                            combined_fingerprint: combined,
                            fingerprints: p.fingerprints,
                        },
                    )
                }
            }
        },
    }
}

} // verus!
