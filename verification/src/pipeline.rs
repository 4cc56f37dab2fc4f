//! The proving pipeline: admission checks, the fan-out plan that resolves
//! one outcome per unit, and the fan-in that reduces the outcomes to the one
//! job-level result.

use vstd::prelude::*;

use crate::admission::AdmissionController;
use crate::cancellation::CancellationSignal;
use crate::collector::cancelled_count;
use crate::collector::first_fatal_of;
use crate::collector::job_verdict;
use crate::collector::lemma_cancelled_count_zero;
use crate::collector::lemma_first_fatal_none;
use crate::collector::partition_outcomes;
use crate::collector::recoverables_of;
use crate::collector::successes_of;
use crate::error::JobError;
use crate::error::UnitError;
use crate::hashing::chain_hash_spec;
use crate::hashing::fingerprint_spec;
use crate::hashing::keccak_hex;
use crate::outcome::classify_spec;
use crate::outcome::UnitOutcome;
use crate::outcome::UnitOutput;
use crate::task::Task;
use crate::task::TaskType;
use crate::unit::advance;
use crate::unit::UnitEvent;
use crate::unit::UnitState;

use vstd::string::StringExecFns;

verus! {

/// What a completed job hands back: the successful outputs in input order,
/// their fingerprints in the same order, and the combined job-level
/// fingerprint.
#[derive(Debug, Clone, PartialEq, Eq)]
pub struct JobResult {
    /// The successful unit outputs, in input order.
    pub outputs: Vec<UnitOutput>,
    /// The combined job-level fingerprint.
    pub combined_fingerprint: String,
    /// The per-unit fingerprints, in input order.
    pub fingerprints: Vec<String>,
}

/// The combination rule selected by the job kind: hash-chaining kinds fold
/// the whole ordered fingerprint sequence; every other kind reports the
/// first fingerprint, or the empty string when there is none. Deterministic:
/// a function of the job kind and the ordered fingerprints alone.
pub open spec fn combine_spec(t: TaskType, hs: Seq<Seq<char>>) -> Seq<char> {
    if t.combines_all() {
        chain_hash_spec(hs)
    } else if hs.len() > 0 {
        hs[0]
    } else {
        Seq::<char>::empty()
    }
}

/// Whether cancellation has been signalled before unit `i` starts: some
/// earlier unit's executor result classified as fatal.
pub open spec fn halted_before(rs: Seq<Result<UnitOutput, UnitError>>, i: int) -> bool {
    exists|j: int| 0 <= j < i && classify_spec(rs[j]) is Fatal
}

/// The outcome unit `i` resolves to, given the table of executor results:
/// `Cancelled` when an earlier fatal failure has signalled cancellation,
/// otherwise the classification of its own executor result.
pub open spec fn planned_outcome(rs: Seq<Result<UnitOutput, UnitError>>, i: int) -> UnitOutcome {
    if halted_before(rs, i) {
        UnitOutcome::Cancelled
    } else {
        classify_spec(rs[i])
    }
}

/// The outcome of every unit, in input order.
pub open spec fn planned_outcomes(rs: Seq<Result<UnitOutput, UnitError>>) -> Seq<UnitOutcome> {
    Seq::new(rs.len(), |i: int| planned_outcome(rs, i))
}

/// Wherever some executor result classifies as fatal, there is an earliest
/// one, and cancellation is not yet signalled when its unit starts.
proof fn lemma_earliest_fatal(rs: Seq<Result<UnitOutput, UnitError>>, j: int)
    requires
        0 <= j < rs.len(),
        classify_spec(rs[j]) is Fatal,
    ensures
        exists|j0: int|
            0 <= j0 <= j && classify_spec(rs[j0]) is Fatal && !halted_before(rs, j0),
    decreases j,
{
    if halted_before(rs, j) {
        let j1 = choose|j1: int| 0 <= j1 < j && classify_spec(rs[j1]) is Fatal;
        lemma_earliest_fatal(rs, j1);
    }
}

/// If no planned outcome is fatal, none is cancelled either: cancellation
/// only ever follows a fatal failure.
pub proof fn lemma_no_fatal_no_cancelled(rs: Seq<Result<UnitOutput, UnitError>>)
    requires
        first_fatal_of(planned_outcomes(rs)) is None,
    ensures
        cancelled_count(planned_outcomes(rs)) == 0,
{
    let oseq = planned_outcomes(rs);
    lemma_first_fatal_none(oseq);
    lemma_cancelled_count_zero(oseq);
    assert forall|i: int| 0 <= i < oseq.len() implies !(oseq[i] is Cancelled) by {
        if oseq[i] is Cancelled {
            let j = choose|j: int| 0 <= j < i && classify_spec(rs[j]) is Fatal;
            lemma_earliest_fatal(rs, j);
            let j0 = choose|j0: int|
                0 <= j0 <= j && classify_spec(rs[j0]) is Fatal && !halted_before(rs, j0);
            assert(oseq[j0] is Fatal);
        }
    }
}

/// Orchestrates the proving pipeline for one job.
pub struct ProvingPipeline;

impl ProvingPipeline {
    /// Whether this pipeline knows how to prove the given program.
    pub fn supports_program(program_id: &String) -> (r: bool)
        ensures
            r == (program_id@ == "fib_input_initial"@),
    {
        let expected = String::from_str("fib_input_initial");
        *program_id == expected
    }

    /// The fingerprint of one unit output: the hex Keccak-256 digest of its
    /// payload bytes, always 64 hex characters.
    pub fn generate_proof_hash(output: &UnitOutput) -> (r: String)
        ensures
            r@ == fingerprint_spec(*output),
            r@.len() == 64,
    {
        keccak_hex(&output.bytes)
    }

    /// Combines the per-unit fingerprints by the job-kind rule: hash kinds
    /// chain every fingerprint in order, the others report the first
    /// fingerprint, or the empty string when there is none.
    pub fn combine_proof_hashes(task: &Task, proof_hashes: &Vec<String>) -> (r: String)
        ensures
            r@ == combine_spec(task.task_type, proof_hashes.deep_view()),
    {
        match task.task_type {
            TaskType::AllProofHashes | TaskType::ProofHash => Task::combine_proof_hashes(
                proof_hashes,
            ),
            _ => {
                if proof_hashes.len() > 0 {
                    proof_hashes[0].clone()
                } else {
                    String::new()
                }
            },
        }
    }

    /// Resolves one outcome per unit from the table of executor results,
    /// driving each unit through its protocol: cancellation check, admission,
    /// cancellation re-check, executor, classification. The first fatal
    /// failure sets the cancellation signal, and every unit starting after
    /// that resolves to `Cancelled` without touching its executor result.
    pub fn plan_outcomes(limit: usize, results: Vec<Result<UnitOutput, UnitError>>) -> (outcomes:
        Vec<UnitOutcome>)
        requires
            limit >= 1,
        ensures
            outcomes@ == planned_outcomes(results@),
    {
        let ghost orig = results@;
        let mut results = results;
        proof {
            assert(orig.len() == results.len());
        }
        let mut outcomes: Vec<UnitOutcome> = Vec::new();
        let mut signal = CancellationSignal::new();
        let mut admission = AdmissionController::new(limit);
        let mut i: usize = 0;
        while results.len() > 0
            invariant
                orig.len() <= usize::MAX,
                i + results@.len() == orig.len(),
                results@ == orig.skip(i as int),
                outcomes@.len() == i,
                forall|j: int| 0 <= j < i ==> outcomes@[j] == planned_outcome(orig, j),
                signal.is_set_spec() == halted_before(orig, i as int),
                admission.wf(),
                admission.outstanding() == 0,
                admission.limit() == limit,
            decreases results@.len(),
        {
            let r = results.remove(0);
            proof {
                assert(r == orig[i as int]);
                assert(results@ =~= orig.skip(i as int + 1));
            }
            let observed = signal.is_set();
            let st = advance(UnitState::Created, UnitEvent::CancelCheck(observed));
            let oc: UnitOutcome;
            if observed {
                oc = match st {
                    UnitState::Done(o) => o,
                    _ => UnitOutcome::Cancelled,
                };
            } else {
                let _granted = admission.try_acquire();
                let st = advance(st, UnitEvent::PermitGranted);
                let observed_again = signal.is_set();
                let st = advance(st, UnitEvent::CancelCheck(observed_again));
                let st = advance(st, UnitEvent::ExecutorFinished(r));
                admission.release();
                oc = match st {
                    UnitState::Done(o) => o,
                    _ => UnitOutcome::Cancelled,
                };
            }
            proof {
                assert(oc == planned_outcome(orig, i as int));
            }
            let is_fatal = matches!(oc, UnitOutcome::Fatal(_));
            outcomes.push(oc);
            if is_fatal {
                signal.set();
            }
            proof {
                if halted_before(orig, i as int) || classify_spec(orig[i as int]) is Fatal {
                    if halted_before(orig, i as int) {
                        let j = choose|j: int|
                            0 <= j < i as int && classify_spec(orig[j]) is Fatal;
                        assert(0 <= j < i as int + 1 && classify_spec(orig[j]) is Fatal);
                    } else {
                        assert(classify_spec(orig[i as int]) is Fatal);
                    }
                    assert(halted_before(orig, i as int + 1));
                } else {
                    assert forall|j: int| 0 <= j < i as int + 1 implies !(classify_spec(
                        orig[j],
                    ) is Fatal) by {
                        if j < i as int {
                            assert(!halted_before(orig, i as int));
                        }
                    }
                    assert(!halted_before(orig, i as int + 1));
                }
            }
            i = i + 1;
        }
        proof {
            assert(outcomes@ =~= planned_outcomes(orig));
        }
        outcomes
    }

    /// Runs one job against the table of executor results, one result per
    /// unit input: the result a unit's executor returns if the unit is ever
    /// admitted. A non-positive concurrency limit fails the job before any
    /// unit, as does an empty unit list. Otherwise the outcomes are planned,
    /// partitioned and reduced: the earliest fatal failure wins; else a
    /// nonzero count of recoverable failures fails the job; else every unit
    /// succeeded and the fingerprints are combined by the job-kind rule.
    pub fn run_job(task: &Task, limit: usize, results: Vec<Result<UnitOutput, UnitError>>) -> (r:
        Result<JobResult, JobError>)
        requires
            results@.len() == task.inputs@.len(),
        ensures
            limit == 0 ==> r == Err::<JobResult, JobError>(JobError::Configuration),
            limit >= 1 && task.inputs@.len() == 0 ==> r == Err::<JobResult, JobError>(
                JobError::EmptyJob,
            ),
            limit >= 1 && task.inputs@.len() > 0 ==> {
                let oseq = planned_outcomes(results@);
                &&& (first_fatal_of(oseq) matches Some(e) ==> r == Err::<JobResult, JobError>(
                    JobError::Fatal(e),
                ))
                &&& (first_fatal_of(oseq) is None && recoverables_of(oseq).len() > 0 ==> r
                    == Err::<JobResult, JobError>(
                    JobError::PartialVerificationFailure(recoverables_of(oseq).len() as usize),
                ))
                &&& (first_fatal_of(oseq) is None && recoverables_of(oseq).len() == 0 ==> (r
                    matches Ok(jr) && jr.outputs@ == successes_of(oseq) && jr.fingerprints@.len()
                    == successes_of(oseq).len() && (forall|j: int|
                    0 <= j < jr.fingerprints@.len() ==> jr.fingerprints@[j]@ == fingerprint_spec(
                        successes_of(oseq)[j],
                    ) && jr.fingerprints@[j]@.len() == 64) && jr.combined_fingerprint@
                    == combine_spec(
                    task.task_type,
                    Seq::new(successes_of(oseq).len(), |j: int| fingerprint_spec(successes_of(oseq)[j])),
                )))
            },
    {
        if limit == 0 {
            return Err(JobError::Configuration);
        }
        if task.inputs.len() == 0 {
            return Err(JobError::EmptyJob);
        }
        let ghost oseq = planned_outcomes(results@);
        let outcomes = Self::plan_outcomes(limit, results);
        let p = partition_outcomes(outcomes);
        proof {
            if first_fatal_of(oseq) is None {
                lemma_no_fatal_no_cancelled(results@);
            }
        }
        let ghost gp = p;
        let r = job_verdict(task, p);
        proof {
            if first_fatal_of(oseq) is None && recoverables_of(oseq).len() == 0 {
                assert(gp.fingerprints.deep_view() =~= Seq::new(
                    successes_of(oseq).len(),
                    |j: int| fingerprint_spec(successes_of(oseq)[j]),
                ));
            }
        }
        r
    }
}

} // verus!
