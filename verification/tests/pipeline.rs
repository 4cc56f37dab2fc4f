//! Job-level scenarios: clean runs, empty jobs, fatal failures with
//! cancellation, batched recoverable failures, and the combination rules.

use prover_pipeline::JobError;
use prover_pipeline::JobResult;
use prover_pipeline::ProvingPipeline;
use prover_pipeline::Task;
use prover_pipeline::TaskType;
use prover_pipeline::UnitError;
use prover_pipeline::UnitOutcome;
use prover_pipeline::UnitOutput;
use sha3::Digest;

fn keccak_hex_ref(data: &[u8]) -> String {
    let digest = sha3::Keccak256::digest(data);
    let mut s = String::new();
    for b in digest.as_slice() {
        s.push_str(&format!("{:02x}", b));
    }
    s
}

fn chain_ref(hashes: &[String]) -> String {
    let mut acc = String::new();
    for h in hashes {
        let mut data = acc.into_bytes();
        data.extend_from_slice(h.as_bytes());
        acc = keccak_hex_ref(&data);
    }
    acc
}

fn task_with(task_type: TaskType, n_units: usize) -> Task {
    Task {
        task_id: String::from("job-1"),
        program_id: String::from("fib_input_initial"),
        task_type,
        inputs: vec![vec![0u8; 4]; n_units],
    }
}

fn output(bytes: &[u8]) -> UnitOutput {
    UnitOutput { bytes: bytes.to_vec() }
}

#[test]
fn all_success_returns_ordered_fingerprints() {
    let task = task_with(TaskType::AllProofHashes, 3);
    let results: Vec<Result<UnitOutput, UnitError>> =
        vec![Ok(output(b"a")), Ok(output(b"b")), Ok(output(b"c"))];
    let r = ProvingPipeline::run_job(&task, 4, results).unwrap();
    assert_eq!(r.outputs, vec![output(b"a"), output(b"b"), output(b"c")]);
    assert_eq!(
        r.fingerprints,
        vec![keccak_hex_ref(b"a"), keccak_hex_ref(b"b"), keccak_hex_ref(b"c")]
    );
    assert_eq!(r.combined_fingerprint, chain_ref(&r.fingerprints));
}

#[test]
fn empty_job_is_rejected() {
    let task = task_with(TaskType::ProofHash, 0);
    let r = ProvingPipeline::run_job(&task, 4, Vec::new());
    assert_eq!(r, Err(JobError::EmptyJob));
}

#[test]
fn zero_concurrency_limit_is_a_configuration_error() {
    let task = task_with(TaskType::ProofHash, 2);
    let results: Vec<Result<UnitOutput, UnitError>> =
        vec![Ok(output(b"a")), Ok(output(b"b"))];
    let r = ProvingPipeline::run_job(&task, 0, results);
    assert_eq!(r, Err(JobError::Configuration));
}

#[test]
fn fatal_failure_wins_and_cancels_later_units() {
    let task = task_with(TaskType::ProofHash, 5);
    let fatal = UnitError::Infrastructure(String::from("worker pool exhausted"));
    let results: Vec<Result<UnitOutput, UnitError>> = vec![
        Ok(output(b"a")),
        Ok(output(b"b")),
        Err(fatal.clone()),
        Ok(output(b"d")),
        Ok(output(b"e")),
    ];
    let outcomes = ProvingPipeline::plan_outcomes(2, results.clone());
    assert_eq!(
        outcomes,
        vec![
            UnitOutcome::Success(output(b"a")),
            UnitOutcome::Success(output(b"b")),
            UnitOutcome::Fatal(fatal.clone()),
            UnitOutcome::Cancelled,
            UnitOutcome::Cancelled,
        ]
    );
    let r = ProvingPipeline::run_job(&task, 2, results);
    assert_eq!(r, Err(JobError::Fatal(fatal)));
}

#[test]
fn validation_failure_is_fatal() {
    let task = task_with(TaskType::ProofHash, 2);
    let bad = UnitError::Validation(String::from("input is not a triple"));
    let results: Vec<Result<UnitOutput, UnitError>> =
        vec![Err(bad.clone()), Ok(output(b"b"))];
    let r = ProvingPipeline::run_job(&task, 2, results);
    assert_eq!(r, Err(JobError::Fatal(bad)));
}

#[test]
fn recoverable_failures_are_counted_after_all_units() {
    let task = task_with(TaskType::ProofHash, 4);
    let results: Vec<Result<UnitOutput, UnitError>> = vec![
        Ok(output(b"a")),
        Err(UnitError::Verification(String::from("proof rejected"))),
        Ok(output(b"c")),
        Err(UnitError::GuestComputation(String::from("guest trap"))),
    ];
    let outcomes = ProvingPipeline::plan_outcomes(3, results.clone());
    // No cancellation: every unit was attempted despite the failures.
    assert!(outcomes.iter().all(|oc| !matches!(oc, UnitOutcome::Cancelled)));
    let r = ProvingPipeline::run_job(&task, 3, results);
    assert_eq!(r, Err(JobError::PartialVerificationFailure(2)));
}

#[test]
fn cancelled_only_outcomes_fail_the_job_as_cancelled() {
    let task = task_with(TaskType::ProofHash, 2);
    let outcomes = vec![UnitOutcome::Success(output(b"a")), UnitOutcome::Cancelled];
    let p = prover_pipeline::collector::partition_outcomes(outcomes);
    assert_eq!(p.cancelled, 1);
    let r = prover_pipeline::collector::job_verdict(&task, p);
    assert_eq!(
        r,
        Err(JobError::Cancelled(String::from("job cancelled before completion")))
    );
}

#[test]
fn combiner_is_deterministic() {
    let task = task_with(TaskType::AllProofHashes, 0);
    let hashes = vec![keccak_hex_ref(b"a"), keccak_hex_ref(b"b")];
    let once = ProvingPipeline::combine_proof_hashes(&task, &hashes);
    let twice = ProvingPipeline::combine_proof_hashes(&task, &hashes);
    assert_eq!(once, twice);
}

#[test]
fn chain_combination_depends_on_order() {
    let task = task_with(TaskType::ProofHash, 0);
    let ab = vec![keccak_hex_ref(b"a"), keccak_hex_ref(b"b")];
    let ba = vec![keccak_hex_ref(b"b"), keccak_hex_ref(b"a")];
    let fwd = ProvingPipeline::combine_proof_hashes(&task, &ab);
    let rev = ProvingPipeline::combine_proof_hashes(&task, &ba);
    assert_ne!(fwd, rev);
}

#[test]
fn first_only_combination_reads_the_first_element() {
    let task = task_with(TaskType::ProofRequired, 0);
    let abc = vec![String::from("one"), String::from("two"), String::from("three")];
    let axy = vec![String::from("one"), String::from("x"), String::from("y")];
    assert_eq!(ProvingPipeline::combine_proof_hashes(&task, &abc), "one");
    assert_eq!(
        ProvingPipeline::combine_proof_hashes(&task, &abc),
        ProvingPipeline::combine_proof_hashes(&task, &axy)
    );
}

#[test]
fn empty_fingerprint_list_combines_to_the_empty_string() {
    let chain_task = task_with(TaskType::AllProofHashes, 0);
    let first_task = task_with(TaskType::ProofRequired, 0);
    let none: Vec<String> = Vec::new();
    assert_eq!(ProvingPipeline::combine_proof_hashes(&chain_task, &none), "");
    assert_eq!(ProvingPipeline::combine_proof_hashes(&first_task, &none), "");
}

#[test]
fn chain_hash_example_with_known_vectors() {
    // One link: the chain of a single fingerprint is the digest of the seed
    // (the empty string) concatenated with it.
    let single = vec![String::from("abc")];
    let chained = Task::combine_proof_hashes(&single);
    assert_eq!(
        chained,
        "4e03657aea45a94fc7d47ba826c8d667c0d1e6e33a64a036ec44f58fa12d6c45"
    );
    // Three links, checked against an independent fold.
    let three = vec![String::from("abc"), String::from("de"), String::from("f")];
    assert_eq!(Task::combine_proof_hashes(&three), chain_ref(&three));
}

#[test]
fn job_result_round_trip_for_first_only_kind() {
    let task = task_with(TaskType::ProofRequired, 2);
    let results: Vec<Result<UnitOutput, UnitError>> =
        vec![Ok(output(b"left")), Ok(output(b"right"))];
    let r: JobResult = ProvingPipeline::run_job(&task, 8, results).unwrap();
    assert_eq!(r.combined_fingerprint, keccak_hex_ref(b"left"));
    assert_eq!(r.fingerprints.len(), 2);
}

#[test]
fn supported_program_is_recognised() {
    assert!(ProvingPipeline::supports_program(&String::from("fib_input_initial")));
    assert!(!ProvingPipeline::supports_program(&String::from("fib_input")));
    assert!(!ProvingPipeline::supports_program(&String::from("")));
}
