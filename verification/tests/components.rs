//! Component-level checks: fingerprinting against known digests, failure
//! classification, the unit state machine, the admission model, the
//! cancellation latch, and the admission limit under a real scheduler.

use std::sync::atomic::AtomicUsize;
use std::sync::atomic::Ordering;
use std::sync::Arc;

use prover_pipeline::admission::AdmissionController;
use prover_pipeline::cancellation::CancellationSignal;
use prover_pipeline::collector::partition_outcomes;
use prover_pipeline::hashing::keccak_hex;
use prover_pipeline::hashing::to_hex;
use prover_pipeline::outcome::classify_unit_result;
use prover_pipeline::unit::advance;
use prover_pipeline::unit::UnitEvent;
use prover_pipeline::unit::UnitState;
use prover_pipeline::ProvingPipeline;
use prover_pipeline::UnitError;
use prover_pipeline::UnitOutcome;
use prover_pipeline::UnitOutput;

#[test]
fn fingerprint_matches_known_keccak_vector() {
    let out = UnitOutput { bytes: b"abc".to_vec() };
    let fp = ProvingPipeline::generate_proof_hash(&out);
    assert_eq!(fp, "4e03657aea45a94fc7d47ba826c8d667c0d1e6e33a64a036ec44f58fa12d6c45");
}

#[test]
fn fingerprint_of_empty_payload() {
    let out = UnitOutput { bytes: Vec::new() };
    let fp = ProvingPipeline::generate_proof_hash(&out);
    assert_eq!(fp, "c5d2460186f7233c927e7db2dcc703c0e500b653ca82273b7bfad8045d85a470");
}

#[test]
fn hex_rendering_is_two_digits_per_byte() {
    assert_eq!(to_hex(&vec![0x00u8, 0x0f, 0xa0, 0xff]), "000fa0ff");
    assert_eq!(to_hex(&Vec::new()), "");
}

#[test]
fn keccak_hex_differs_from_its_input() {
    let data = b"abc".to_vec();
    let digest = keccak_hex(&data);
    assert_ne!(digest.as_bytes(), &data[..]);
    assert_eq!(digest.len(), 64);
}

#[test]
fn classification_follows_the_taxonomy() {
    assert!(UnitError::Verification(String::from("x")).is_recoverable());
    assert!(UnitError::GuestComputation(String::from("x")).is_recoverable());
    assert!(!UnitError::Validation(String::from("x")).is_recoverable());
    assert!(!UnitError::Infrastructure(String::from("x")).is_recoverable());

    let ok = classify_unit_result(Ok(UnitOutput { bytes: vec![1u8] }));
    assert_eq!(ok, UnitOutcome::Success(UnitOutput { bytes: vec![1u8] }));
    let rec = classify_unit_result(Err(UnitError::Verification(String::from("bad"))));
    assert_eq!(rec, UnitOutcome::Recoverable(UnitError::Verification(String::from("bad"))));
    let fatal = classify_unit_result(Err(UnitError::Infrastructure(String::from("down"))));
    assert_eq!(fatal, UnitOutcome::Fatal(UnitError::Infrastructure(String::from("down"))));
}

#[test]
fn unit_protocol_reaches_success_through_the_executor() {
    let st = advance(UnitState::Created, UnitEvent::CancelCheck(false));
    assert_eq!(st, UnitState::Queued);
    let st = advance(st, UnitEvent::PermitGranted);
    assert_eq!(st, UnitState::Admitted);
    let st = advance(st, UnitEvent::CancelCheck(false));
    assert_eq!(st, UnitState::Running);
    let st = advance(st, UnitEvent::ExecutorFinished(Ok(UnitOutput { bytes: vec![2u8] })));
    assert_eq!(st, UnitState::Done(UnitOutcome::Success(UnitOutput { bytes: vec![2u8] })));
}

#[test]
fn unit_observing_cancellation_resolves_cancelled() {
    let st = advance(UnitState::Created, UnitEvent::CancelCheck(true));
    assert_eq!(st, UnitState::Done(UnitOutcome::Cancelled));
    let st = advance(UnitState::Admitted, UnitEvent::CancelCheck(true));
    assert_eq!(st, UnitState::Done(UnitOutcome::Cancelled));
}

#[test]
fn terminal_states_are_final() {
    let done = UnitState::Done(UnitOutcome::Cancelled);
    let st = advance(done, UnitEvent::PermitGranted);
    assert_eq!(st, UnitState::Done(UnitOutcome::Cancelled));
    let st = advance(st, UnitEvent::ExecutorFinished(Err(UnitError::Validation(String::from("x")))));
    assert_eq!(st, UnitState::Done(UnitOutcome::Cancelled));
}

#[test]
fn admission_controller_never_exceeds_its_limit() {
    let mut a = AdmissionController::new(2);
    assert!(a.try_acquire());
    assert!(a.try_acquire());
    assert!(!a.try_acquire());
    a.release();
    assert!(a.try_acquire());
    assert!(!a.try_acquire());
}

#[test]
fn cancellation_signal_is_a_one_shot_latch() {
    let mut s = CancellationSignal::new();
    assert!(!s.is_set());
    s.set();
    assert!(s.is_set());
    s.set();
    assert!(s.is_set());
}

#[test]
fn admission_limit_holds_under_a_real_scheduler() {
    let runtime = tokio::runtime::Builder::new_multi_thread()
        .worker_threads(4)
        .enable_all()
        .build()
        .unwrap();
    let limit: usize = 3;
    let units: usize = 16;
    let in_flight = Arc::new(AtomicUsize::new(0));
    let max_seen = Arc::new(AtomicUsize::new(0));
    let outcomes = runtime.block_on(async {
        let semaphore = Arc::new(tokio::sync::Semaphore::new(limit));
        let handles: Vec<_> = (0..units)
            .map(|i| {
                let semaphore = Arc::clone(&semaphore);
                let in_flight = Arc::clone(&in_flight);
                let max_seen = Arc::clone(&max_seen);
                tokio::spawn(async move {
                    let _permit = semaphore.acquire_owned().await.unwrap();
                    let now = in_flight.fetch_add(1, Ordering::SeqCst) + 1;
                    max_seen.fetch_max(now, Ordering::SeqCst);
                    tokio::time::sleep(std::time::Duration::from_millis(5)).await;
                    in_flight.fetch_sub(1, Ordering::SeqCst);
                    classify_unit_result(Ok(UnitOutput { bytes: vec![i as u8] }))
                })
            })
            .collect();
        let mut outcomes = Vec::new();
        for h in handles {
            outcomes.push(h.await.unwrap());
        }
        outcomes
    });
    assert!(max_seen.load(Ordering::SeqCst) <= limit);
    let p = partition_outcomes(outcomes);
    assert_eq!(p.successes.len(), units);
    assert_eq!(p.first_fatal, None);
}
