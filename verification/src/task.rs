//! The job description: an identifier, a job-kind tag and the ordered unit inputs.

use vstd::prelude::*;

use crate::hashing::chain_hash_spec;
use crate::hashing::chain_hashes;

verus! {

/// The job-kind tag. It selects the rule that combines the per-unit
/// fingerprints into the job-level fingerprint.
#[derive(Clone, Copy, Debug, PartialEq, Eq)]
pub enum TaskType {
    /// The full proof is wanted; only the first fingerprint is reported.
    ProofRequired,
    /// Only the chained fingerprint is wanted.
    ProofHash,
    /// The chained fingerprint and the per-unit fingerprints are wanted.
    AllProofHashes,
}

impl TaskType {
    /// Whether this job kind combines all per-unit fingerprints by hash
    /// chaining; the other kinds report the first fingerprint alone.
    pub open spec fn combines_all(self) -> bool {
        self is ProofHash || self is AllProofHashes
    }
}

/// One job: an ordered sequence of opaque unit inputs, processed in one
/// fan-out/fan-in cycle.
#[derive(Debug, Clone)]
pub struct Task {
    /// Identifies the job towards the failure side-channel.
    pub task_id: String,
    /// Names the program that the unit executor must run.
    pub program_id: String,
    /// Selects the fingerprint combination rule.
    pub task_type: TaskType,
    /// The ordered, opaque unit inputs; one unit of work each.
    pub inputs: Vec<Vec<u8>>,
}

impl Task {
    /// The ordered unit inputs of this job.
    pub fn all_inputs(&self) -> (r: &Vec<Vec<u8>>)
        ensures
            r@ == self.inputs@,
    {
        &self.inputs
    }

    /// Folds an ordered list of per-unit fingerprints into one chained
    /// fingerprint, independent of any job.
    pub fn combine_proof_hashes(proof_hashes: &Vec<String>) -> (r: String)
        ensures
            r@ == chain_hash_spec(proof_hashes.deep_view()),
    {
        chain_hashes(proof_hashes)
    }
}

} // verus!
