use signal_attestation::attack::{AttackSimulation, AttackType};
use signal_attestation::audit::SecurityAuditor;
use signal_attestation::crypto::{KemError, decapsulate, encapsulate, kem_keygen, sign};
use signal_attestation::tvhash::{derive_key_for, digest};
use signal_attestation::encoding::encode_bound_message;
use signal_attestation::entropy::EntropyManager;
use signal_attestation::hardware::{HardwareProfile, derive_fingerprint};
use signal_attestation::runtime::{Config, SignalRuntime, SignalState, ValidationOutcome};
use signal_attestation::{mix_step, wrap_add};

// A clock reading comfortably past the acceptance window and away from the
// next one-second bucket boundary.
const NOW: u64 = 100_000_000_500_000;

fn test_config() -> Config {
    Config {
        skew_tolerance: 5_000_000_000,
        max_age: 60_000_000_000,
        time_bucket_width: 1_000_000_000,
        replay_cache_capacity: 1024,
    }
}

fn ready_runtime() -> SignalRuntime {
    let identifiers: Vec<u8> = vec![9, 9, 2, 4, 6, 1];
    let features: Vec<u64> = vec![4, 5];
    let capabilities: Vec<(u64, u64)> = vec![(3, 2)];
    SignalRuntime::new(identifiers, features, capabilities, test_config())
}

#[test]
fn test_generate_then_validate_accepts_exactly_once() {
    let mut runtime = ready_runtime();
    let signal = runtime.generate_signal(vec![1, 2, 3], NOW);
    assert_eq!(runtime.validate_signal(&signal, NOW), ValidationOutcome::Accepted);
    assert_eq!(runtime.validate_signal(&signal, NOW), ValidationOutcome::ReplayDetected);
}

#[test]
fn test_repeated_validations_accept_one() {
    let mut runtime = ready_runtime();
    let signal = runtime.generate_signal(vec![42], NOW);
    let mut accepted = 0;
    let mut replays = 0;
    for _ in 0..8 {
        match runtime.validate_signal(&signal, NOW) {
            ValidationOutcome::Accepted => accepted += 1,
            ValidationOutcome::ReplayDetected => replays += 1,
            other => panic!("unexpected outcome {:?}", other),
        }
    }
    assert_eq!(accepted, 1);
    assert_eq!(replays, 7);
}

#[test]
fn test_entropy_increment_invalidates_signature() {
    for delta in [1u64, 12345u64, u64::MAX] {
        let mut runtime = ready_runtime();
        let signal = runtime.generate_signal(vec![5, 5, 5], NOW);
        let tampered = SignalState {
            timestamp: signal.timestamp,
            entropy_state: signal.entropy_state.wrapping_add(delta),
            data: signal.data.clone(),
            signature: signal.signature.clone(),
        };
        assert_eq!(
            runtime.validate_signal(&tampered, NOW),
            ValidationOutcome::SignatureInvalid
        );
    }
}

#[test]
fn test_expired_signal_rejected() {
    // Generated at T and validated at T + 61 s with a 60 s maximum age.
    let mut runtime = ready_runtime();
    let signal = runtime.generate_signal(vec![1], NOW);
    let outcome = runtime.validate_signal(&signal, NOW + 61_000_000_000);
    assert_eq!(outcome, ValidationOutcome::ExpiredSignal);
}

#[test]
fn test_future_signal_rejected() {
    let mut runtime = ready_runtime();
    let signal = runtime.generate_signal(vec![1], NOW);
    // Validated more than the 5 s skew tolerance before its timestamp.
    let outcome = runtime.validate_signal(&signal, NOW - 5_000_000_001);
    assert_eq!(outcome, ValidationOutcome::FutureTimestamp);
}

#[test]
fn test_boundary_of_acceptance_window() {
    let mut runtime = ready_runtime();
    let signal = runtime.generate_signal(vec![1], NOW);
    // Exactly max_age late is still inside the window; the replay cache is
    // what rejects the second copy.
    assert_eq!(
        runtime.validate_signal(&signal, NOW + 60_000_000_000),
        ValidationOutcome::Accepted
    );
}

#[test]
fn test_modified_payload_rejected() {
    let mut runtime = ready_runtime();
    let signal = runtime.generate_signal(vec![1, 2, 3], NOW);
    let same_len = SignalState {
        timestamp: signal.timestamp,
        entropy_state: signal.entropy_state,
        data: vec![1, 2, 4],
        signature: signal.signature.clone(),
    };
    assert_eq!(
        runtime.validate_signal(&same_len, NOW),
        ValidationOutcome::SignatureInvalid
    );
    let longer = SignalState {
        timestamp: signal.timestamp,
        entropy_state: signal.entropy_state,
        data: vec![1, 2, 3, 3],
        signature: signal.signature.clone(),
    };
    assert_eq!(
        runtime.validate_signal(&longer, NOW),
        ValidationOutcome::MalformedInput
    );
}

#[test]
fn test_truncated_signature_malformed() {
    let mut runtime = ready_runtime();
    let mut signal = runtime.generate_signal(vec![1, 2, 3], NOW);
    signal.signature.pop();
    assert_eq!(
        runtime.validate_signal(&signal, NOW),
        ValidationOutcome::MalformedInput
    );
}

#[test]
fn test_degenerate_runtime_reports_hardware_mismatch() {
    // A runtime enrolled with no features has a degenerate profile; every
    // signal is rejected on the hardware check, which runs before any
    // signature work.
    let mut degenerate = SignalRuntime::new(vec![1, 2, 3], vec![], vec![], test_config());
    let probe = SignalState {
        timestamp: NOW,
        entropy_state: 0,
        data: vec![],
        signature: vec![],
    };
    assert_eq!(
        degenerate.validate_signal(&probe, NOW),
        ValidationOutcome::HardwareMismatch
    );
}

#[test]
fn test_full_replay_cache_fails_closed() {
    let mut config = test_config();
    config.replay_cache_capacity = 0;
    let mut runtime = SignalRuntime::new(vec![1, 2, 3], vec![1], vec![(1, 1)], config);
    let signal = runtime.generate_signal(vec![1], NOW);
    assert_eq!(
        runtime.validate_signal(&signal, NOW),
        ValidationOutcome::CryptoUnavailable
    );
}

#[test]
fn test_eviction_reopens_capacity_but_not_replays() {
    let mut config = test_config();
    config.replay_cache_capacity = 1;
    let mut runtime = SignalRuntime::new(vec![1, 2, 3], vec![1], vec![(1, 1)], config);
    let first = runtime.generate_signal(vec![1], NOW);
    assert_eq!(runtime.validate_signal(&first, NOW), ValidationOutcome::Accepted);
    // While the first admission is live, the cache is full.
    let second = runtime.generate_signal(vec![2], NOW);
    assert_eq!(
        runtime.validate_signal(&second, NOW),
        ValidationOutcome::CryptoUnavailable
    );
    // Once the first admission ages out it is evicted, making room; the
    // second signal is stale by then, so use a third generated later.
    let later = NOW + 61_000_000_000;
    let third = runtime.generate_signal(vec![3], later);
    assert_eq!(runtime.validate_signal(&third, later), ValidationOutcome::Accepted);
}

#[test]
fn test_bucket_boundary_crossing_still_validates() {
    // Generated 1 ms before a one-second bucket boundary and validated 1 ms
    // after it: the signature is checked under the generation-time bucket.
    let mut runtime = ready_runtime();
    let boundary: u64 = 100_001_000_000_000;
    let before = boundary - 1_000_000;
    let after = boundary + 1_000_000;
    assert_ne!(before / 1_000_000_000, after / 1_000_000_000);
    let signal = runtime.generate_signal(vec![6], before);
    assert_eq!(runtime.validate_signal(&signal, after), ValidationOutcome::Accepted);
}

#[test]
fn test_kem_roundtrip() {
    let (public_key, secret_key) = kem_keygen();
    let (ciphertext, shared) = encapsulate(&public_key);
    assert_eq!(decapsulate(&secret_key, &ciphertext), Ok(shared));
}

#[test]
fn test_kem_fails_closed_on_malformed_ciphertext() {
    let (public_key, secret_key) = kem_keygen();
    let (mut ciphertext, _) = encapsulate(&public_key);
    ciphertext.tag = ciphertext.tag.wrapping_add(1);
    assert_eq!(
        decapsulate(&secret_key, &ciphertext),
        Err(KemError::MalformedCiphertext)
    );
}

#[test]
fn test_security_audit_passes() {
    let auditor = SecurityAuditor::new(AttackSimulation::new(AttackType::Replay));
    let mut runtime = ready_runtime();
    let report = auditor.run_audit(&mut runtime, NOW);
    // Thirteen fixed checks, then the replay simulation's three attempts.
    assert_eq!(report.len(), 16);
    let expected_names = [
        "kem_roundtrip",
        "kem_fail_closed",
        "signature_verifies",
        "digest_deterministic",
        "time_variant_keys",
        "time_variant_digest",
        "signal_generation",
        "signal_mutation",
        "replay_protection",
        "enrolled_profile_binds",
        "spoofed_profile_rejected",
        "stale_rejected",
        "future_rejected",
        "immediate_replay",
        "delayed_replay",
        "modified_replay",
    ];
    for (result, expected) in report.iter().zip(expected_names.iter()) {
        assert_eq!(result.name, *expected);
        assert!(result.passed, "audit check '{}' failed", result.name);
    }
}

#[test]
fn test_time_variant_digest() {
    // One key, one message: the digest is deterministic and 32 bytes wide.
    // Keys derived for distinct time buckets differ, and so do the digests
    // they produce over one identical message — even over the empty message,
    // whose digest is still 32 key-dependent bytes.
    let message = vec![1u8, 2, 3, 4];
    let early_key = derive_key_for(0x5150, 0);
    let late_key = derive_key_for(0x5150, 1);
    assert_ne!(early_key, late_key);
    assert_eq!(digest(early_key, &message), digest(early_key, &message));
    assert_eq!(digest(early_key, &message).len(), 32);
    assert_ne!(digest(early_key, &message), digest(late_key, &message));
    let empty: Vec<u8> = vec![];
    assert_eq!(digest(early_key, &empty).len(), 32);
    assert_ne!(digest(early_key, &empty), digest(late_key, &empty));
    // The signature carries the digest as its tail, so even two signatures
    // over the empty message differ across bucket keys.
    assert_ne!(sign(early_key, &empty), sign(late_key, &empty));
}

#[test]
fn test_entropy_values_advance_and_differ() {
    let mut manager = EntropyManager::with_seed(5);
    let e1 = manager.next_entropy();
    let e2 = manager.next_entropy();
    let e3 = manager.next_entropy();
    assert_eq!(e1, 6);
    assert_eq!(e2, 7);
    assert_eq!(e3, 8);
}

#[test]
fn test_bound_message_layout() {
    let fingerprint = vec![7u8; 32];
    let data = vec![0xAAu8];
    let encoded = encode_bound_message(0x0102030405060708, 5, &data, &fingerprint);
    assert_eq!(encoded.len(), 24 + 1 + 32);
    assert_eq!(&encoded[0..8], &[8, 7, 6, 5, 4, 3, 2, 1]);
    assert_eq!(&encoded[8..16], &[5, 0, 0, 0, 0, 0, 0, 0]);
    assert_eq!(&encoded[16..24], &[1, 0, 0, 0, 0, 0, 0, 0]);
    assert_eq!(encoded[24], 0xAA);
    assert_eq!(&encoded[25..57], &[7u8; 32][..]);
}

#[test]
fn test_mix_step_exact_values() {
    // mix(0, 0) is the additive constant of the mixing step.
    assert_eq!(mix_step(0, 0), 0xA076_1D64_78BD_642F);
    assert_eq!(wrap_add(u64::MAX, 1), 0);
    assert_eq!(wrap_add(3, 4), 7);
}

#[test]
fn test_fingerprint_deterministic_and_sensitive() {
    let a = derive_fingerprint(&vec![1, 2, 3]);
    let b = derive_fingerprint(&vec![1, 2, 3]);
    let c = derive_fingerprint(&vec![1, 2, 4]);
    assert_eq!(a.len(), 32);
    assert_eq!(a, b);
    assert_ne!(a, c);
}

#[test]
fn test_binding_requires_matching_identifiers() {
    let runtime = ready_runtime();
    let other = SignalRuntime::new(vec![8, 8, 8], vec![4, 5], vec![(3, 2)], test_config());
    let foreign = other.current_hardware_profile();
    assert!(!runtime.validate_hardware_binding(&foreign));
    let own = runtime.current_hardware_profile();
    assert!(runtime.validate_hardware_binding(&own));
}

#[test]
fn test_all_zero_profile_never_binds() {
    let runtime = ready_runtime();
    let degenerate = HardwareProfile {
        fingerprint: vec![0u8; 32],
        features: vec![],
        capabilities: vec![],
    };
    assert!(!runtime.validate_hardware_binding(&degenerate));
}
