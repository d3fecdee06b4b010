use signal_attestation::attack::{AttackSimulation, AttackType};
use signal_attestation::hardware::modify_hardware_binding;
use signal_attestation::runtime::{Config, SignalRuntime};

// A clock reading comfortably past the acceptance window and away from the
// next one-second bucket boundary.
const NOW: u64 = 100_000_000_500_000;

fn ready_runtime() -> SignalRuntime {
    let identifiers: Vec<u8> = vec![10, 20, 30, 40, 50, 60, 70, 80];
    let features: Vec<u64> = vec![1, 2, 3];
    let capabilities: Vec<(u64, u64)> = vec![(1, 7), (2, 1)];
    SignalRuntime::new(identifiers, features, capabilities, Config::default())
}

#[test]
fn test_attack_simulations() {
    let simulation = AttackSimulation::new(AttackType::Replay);
    let mut runtime = ready_runtime();
    let results = simulation.run(&mut runtime, NOW);

    assert_eq!(results.test_name, "replay_attack");
    let names: Vec<&str> = results.attempts.iter().map(|a| a.name).collect();
    assert_eq!(names, vec!["immediate_replay", "delayed_replay", "modified_replay"]);
    for attempt in results.attempts {
        assert!(
            !attempt.success,
            "Attack '{}' succeeded but should have failed",
            attempt.name
        );
    }
}

#[test]
fn test_multiple_attack_vectors() {
    let attacks = vec![
        AttackType::Replay,
        AttackType::TimeManipulation,
        AttackType::HardwareSpoofing,
        AttackType::SignalForging,
    ];

    for attack_type in attacks {
        let simulation = AttackSimulation::new(attack_type);
        let mut runtime = ready_runtime();
        let results = simulation.run(&mut runtime, NOW);

        assert!(
            results.attempts.iter().all(|a| !a.success),
            "Attack type {:?} succeeded",
            attack_type
        );
    }
}

#[test]
fn test_entropy_and_corruption_vectors() {
    for attack_type in [AttackType::EntropyManipulation, AttackType::StateCorruption] {
        let simulation = AttackSimulation::new(attack_type);
        let mut runtime = ready_runtime();
        let results = simulation.run(&mut runtime, NOW);
        assert!(results.attempts.len() > 0);
        assert!(results.attempts.iter().all(|a| !a.success));
    }
}

#[test]
fn test_hardware_binding() {
    let runtime = ready_runtime();

    let binding = runtime.current_hardware_profile();
    assert!(runtime.validate_hardware_binding(&binding));

    let modified = modify_hardware_binding(&binding);
    assert!(!runtime.validate_hardware_binding(&modified));
}

#[test]
fn test_spoofed_hardware_profile_rejected() {
    let runtime = ready_runtime();
    let simulation = AttackSimulation::new(AttackType::HardwareSpoofing);

    let spoofed = simulation.generate_spoofed_hardware();
    assert_eq!(spoofed.fingerprint, vec![0u8; 32]);
    assert!(spoofed.features.is_empty());
    assert!(spoofed.capabilities.is_empty());
    assert!(!runtime.validate_hardware_binding(&spoofed));

    let partially_modified = simulation.modify_hardware_profile(&spoofed);
    assert_eq!(partially_modified.fingerprint[0], 1);
    assert!(!runtime.validate_hardware_binding(&partially_modified));
}

#[test]
fn test_modify_signal_shifts_fields() {
    let simulation = AttackSimulation::new(AttackType::Replay);
    let mut runtime = ready_runtime();
    let signal = runtime.generate_signal(vec![1, 2, 3], NOW);
    let modified = simulation.modify_signal(&signal);
    assert_eq!(modified.entropy_state, signal.entropy_state.wrapping_add(1));
    assert_eq!(modified.timestamp, signal.timestamp + 1000);
    assert_eq!(modified.data, signal.data);
    assert_eq!(modified.signature, signal.signature);
}

#[test]
fn test_forged_signal_shape() {
    let simulation = AttackSimulation::new(AttackType::SignalForging);
    let forged = simulation.generate_forged_signal(NOW);
    assert_eq!(forged.timestamp, NOW);
    assert_eq!(forged.data, vec![0u8; 32]);
    assert_eq!(forged.signature, vec![0u8; 64]);
}
