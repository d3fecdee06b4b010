//! Security audit: deterministic checks of the crypto layer, of signal
//! integrity, of the hardware binding and of the temporal policy, followed by
//! one attack simulation, in the order the audit report lists them. Each
//! check's contract fixes its name, what it records and the state it leaves
//! behind; an audit report can therefore never contain a failed check against
//! a ready runtime.

use vstd::prelude::*;

use crate::wrap_add;
use crate::crypto::{
    KemCiphertext, KemError, bytes_equal, decapsulate, encapsulate, kem_keygen, sign,
    verify_signature,
};
use crate::tvhash::{
    derive_key, derive_key_for, digest, lemma_derive_key_time_variant, lemma_same_bucket,
    tv_digest,
};
use crate::entropy::{entropy_value, lemma_entropy_values_distinct};
use crate::attack::{
    AttackSimulation, AttackType, attack_ready, corruption_final, entropy_final, forging_final,
    future_probe, past_probe, replay_final, shifted_copy, sim_attempt_count, sim_attempt_name,
    spoofed_profile, timing_final,
};
use crate::hardware::HardwareProfile;
use crate::laws::{
    lemma_expired_rejected, lemma_future_rejected, lemma_generate_then_validate_accepted,
    lemma_second_validation_replay_detected, lemma_shifted_copy_rejected,
};
use crate::runtime::{
    Config, RuntimeModel, SignalModel, SignalRuntime, SignalState, ValidationOutcome,
    after_generate, after_validate, binding_ok, evict_spec, generated_signal,
    lemma_evict_spec_properties, spec_cache_after, spec_outcome, wf,
};

verus! {

/// One audit check and whether it passed.
#[derive(Debug)]
pub struct TestResult {
    pub name: &'static str,
    pub passed: bool,
}

impl TestResult {
    /// A named check with its outcome.
    pub fn new(name: &'static str, passed: bool) -> (r: Self)
        ensures
            r.name@ == name@,
            r.passed == passed,
    {
        TestResult { name, passed }
    }
}

/// Every check in the report passed.
pub open spec fn all_passed(results: Seq<TestResult>) -> bool {
    forall|i: int| 0 <= i < results.len() ==> results[i].passed
}

/// Readiness for the whole audit: the simulations' readiness, plus headroom
/// and entropy freshness for the admission the signal-integrity check makes
/// before the attack simulation runs.
pub open spec fn audit_ready(m: RuntimeModel, now: u64) -> bool {
    &&& attack_ready(m, now)
    &&& m.entropy_counter + 8 < u64::MAX
    &&& m.cache.len() + 8 < m.config.replay_cache_capacity
    &&& !m.cache.contains((entropy_value(m.entropy_seed, m.entropy_counter + 2), now))
}

/// The payload the signal-integrity check signs.
pub open spec fn integrity_payload() -> Seq<u8> {
    seq![6u8, 6u8]
}

/// The signal the signal-integrity check generates.
pub open spec fn integrity_signal(m: RuntimeModel, now: u64) -> SignalModel {
    generated_signal(m, integrity_payload(), now)
}

/// The runtime after that signal was admitted.
pub open spec fn integrity_after_admit(m: RuntimeModel, now: u64) -> RuntimeModel {
    after_validate(after_generate(m), integrity_signal(m, now), now)
}

/// The runtime after the mutated copy was rejected.
pub open spec fn integrity_after_mutated(m: RuntimeModel, now: u64) -> RuntimeModel {
    after_validate(integrity_after_admit(m, now), shifted_copy(integrity_signal(m, now)), now)
}

/// The runtime the signal-integrity check leaves behind.
pub open spec fn integrity_final(m: RuntimeModel, now: u64) -> RuntimeModel {
    after_validate(integrity_after_mutated(m, now), integrity_signal(m, now), now)
}

/// The long-term secret the key- and digest-variance audit checks derive
/// from.
pub const AUDIT_MASTER: u64 = 0x5150;

/// The message the audit digests and signs.
pub open spec fn audit_digest_probe() -> Seq<u8> {
    seq![0xABu8, 0xCDu8]
}

/// Absorbing the two-byte audit message is two mixing steps.
pub proof fn lemma_absorb_probe(acc: u64)
    ensures
        crate::tvhash::absorb_from(acc, audit_digest_probe()) == crate::mix(
            crate::mix(acc, 0xAB),
            0xCD,
        ),
{
    reveal_with_fuel(crate::tvhash::absorb_from, 3);
    let p = audit_digest_probe();
    assert(p.last() == 0xCDu8);
    assert(p.drop_last() =~= seq![0xABu8]);
    assert(seq![0xABu8].last() == 0xABu8);
    assert(seq![0xABu8].drop_last() =~= Seq::<u8>::empty());
}

/// The first byte of the audit message's digest under the bucket-0 key,
/// evaluated step by step through the mixing chain.
pub proof fn lemma_digest_probe_byte_bucket0()
    ensures
        tv_digest(derive_key(AUDIT_MASTER, 0), audit_digest_probe())[0] == 254u8,
{
    reveal_with_fuel(crate::tvhash::stream_state, 2);
    assert((0x0000_0000_0000_5150 * 0x9e37_79b9_7f4a_7c15 + 0x0000_0000_0000_0000 + 0xa076_1d64_78bd_642f) % 0x1_0000_0000_0000_0000
        == 0x9f4f_d8a2_d146_cfbf) by (nonlinear_arith);
    assert(crate::mix(0x0000_0000_0000_5150u64, 0x0000_0000_0000_0000u64) == 0x9f4f_d8a2_d146_cfbfu64);
    assert((0x9f4f_d8a2_d146_cfbf * 0x9e37_79b9_7f4a_7c15 + 0x7d16_3e57_a5a5_d16e + 0xa076_1d64_78bd_642f) % 0x1_0000_0000_0000_0000
        == 0x7951_0604_6408_c448) by (nonlinear_arith);
    assert(crate::mix(0x9f4f_d8a2_d146_cfbfu64, 0x7d16_3e57_a5a5_d16eu64) == 0x7951_0604_6408_c448u64);
    assert((0x7951_0604_6408_c448 * 0x9e37_79b9_7f4a_7c15 + 0x0000_0000_0000_00ab + 0xa076_1d64_78bd_642f) % 0x1_0000_0000_0000_0000
        == 0xc87e_e025_6158_5ec2) by (nonlinear_arith);
    assert(crate::mix(0x7951_0604_6408_c448u64, 0x0000_0000_0000_00abu64) == 0xc87e_e025_6158_5ec2u64);
    assert((0xc87e_e025_6158_5ec2 * 0x9e37_79b9_7f4a_7c15 + 0x0000_0000_0000_00cd + 0xa076_1d64_78bd_642f) % 0x1_0000_0000_0000_0000
        == 0x12dd_c25b_e4f7_22e6) by (nonlinear_arith);
    assert(crate::mix(0xc87e_e025_6158_5ec2u64, 0x0000_0000_0000_00cdu64) == 0x12dd_c25b_e4f7_22e6u64);
    assert((0x12dd_c25b_e4f7_22e6 * 0x9e37_79b9_7f4a_7c15 + 0x1234_5678_9abc_def1 + 0xa076_1d64_78bd_642f) % 0x1_0000_0000_0000_0000
        == 0x27a7_a044_c123_87fe) by (nonlinear_arith);
    assert(crate::mix(0x12dd_c25b_e4f7_22e6u64, 0x1234_5678_9abc_def1u64) == 0x27a7_a044_c123_87feu64);
    assert(0x27a7_a044_c123_87feint % 256 == 254) by (nonlinear_arith);
    lemma_absorb_probe(0x7951_0604_6408_c448u64);
    assert(crate::tvhash::absorb_from(0x7951_0604_6408_c448u64, audit_digest_probe()) == 0x12dd_c25b_e4f7_22e6u64);
    assert(crate::tvhash::stream_state(0x12dd_c25b_e4f7_22e6u64, 0)
        == crate::mix(0x12dd_c25b_e4f7_22e6u64, crate::tvhash::STREAM_INIT));
    assert(crate::tvhash::stream_byte(0x12dd_c25b_e4f7_22e6u64, 0) == 254u8);
}

/// The first byte of the audit message's digest under the bucket-1 key,
/// evaluated step by step through the mixing chain.
pub proof fn lemma_digest_probe_byte_bucket1()
    ensures
        tv_digest(derive_key(AUDIT_MASTER, 1), audit_digest_probe())[0] == 175u8,
{
    reveal_with_fuel(crate::tvhash::stream_state, 2);
    assert((0x0000_0000_0000_5150 * 0x9e37_79b9_7f4a_7c15 + 0x0000_0000_0000_0001 + 0xa076_1d64_78bd_642f) % 0x1_0000_0000_0000_0000
        == 0x9f4f_d8a2_d146_cfc0) by (nonlinear_arith);
    assert(crate::mix(0x0000_0000_0000_5150u64, 0x0000_0000_0000_0001u64) == 0x9f4f_d8a2_d146_cfc0u64);
    assert((0x9f4f_d8a2_d146_cfc0 * 0x9e37_79b9_7f4a_7c15 + 0x7d16_3e57_a5a5_d16e + 0xa076_1d64_78bd_642f) % 0x1_0000_0000_0000_0000
        == 0x1788_7fbd_e353_405d) by (nonlinear_arith);
    assert(crate::mix(0x9f4f_d8a2_d146_cfc0u64, 0x7d16_3e57_a5a5_d16eu64) == 0x1788_7fbd_e353_405du64);
    assert((0x1788_7fbd_e353_405d * 0x9e37_79b9_7f4a_7c15 + 0x0000_0000_0000_00ab + 0xa076_1d64_78bd_642f) % 0x1_0000_0000_0000_0000
        == 0xa7c3_0d48_2fa0_b87b) by (nonlinear_arith);
    assert(crate::mix(0x1788_7fbd_e353_405du64, 0x0000_0000_0000_00abu64) == 0xa7c3_0d48_2fa0_b87bu64);
    assert((0xa7c3_0d48_2fa0_b87b * 0x9e37_79b9_7f4a_7c15 + 0x0000_0000_0000_00cd + 0xa076_1d64_78bd_642f) % 0x1_0000_0000_0000_0000
        == 0x7328_1f3f_92d6_1b13) by (nonlinear_arith);
    assert(crate::mix(0xa7c3_0d48_2fa0_b87bu64, 0x0000_0000_0000_00cdu64) == 0x7328_1f3f_92d6_1b13u64);
    assert((0x7328_1f3f_92d6_1b13 * 0x9e37_79b9_7f4a_7c15 + 0x1234_5678_9abc_def1 + 0xa076_1d64_78bd_642f) % 0x1_0000_0000_0000_0000
        == 0x00eb_0441_14a5_afaf) by (nonlinear_arith);
    assert(crate::mix(0x7328_1f3f_92d6_1b13u64, 0x1234_5678_9abc_def1u64) == 0x00eb_0441_14a5_afafu64);
    assert(0x00eb_0441_14a5_afafint % 256 == 175) by (nonlinear_arith);
    lemma_absorb_probe(0x1788_7fbd_e353_405du64);
    assert(crate::tvhash::absorb_from(0x1788_7fbd_e353_405du64, audit_digest_probe()) == 0x7328_1f3f_92d6_1b13u64);
    assert(crate::tvhash::stream_state(0x7328_1f3f_92d6_1b13u64, 0)
        == crate::mix(0x7328_1f3f_92d6_1b13u64, crate::tvhash::STREAM_INIT));
    assert(crate::tvhash::stream_byte(0x7328_1f3f_92d6_1b13u64, 0) == 175u8);
}

/// The audit's digest-variance probe holds concretely: the digests of the
/// audit message under the keys of two adjacent buckets differ already in
/// their first byte.
pub proof fn lemma_audit_digest_variance()
    ensures
        tv_digest(derive_key(AUDIT_MASTER, 0), audit_digest_probe())
            != tv_digest(derive_key(AUDIT_MASTER, 1), audit_digest_probe()),
{
    lemma_digest_probe_byte_bucket0();
    lemma_digest_probe_byte_bucket1();
}

/// The runtime state an audit hands to its closing attack simulation: the
/// signal-integrity admission followed by the two rejected temporal probes.
pub open spec fn audit_pre_sim(m: RuntimeModel, now: u64) -> RuntimeModel {
    after_validate(
        after_validate(integrity_final(m, now), past_probe(m.config, now), now),
        future_probe(m.config, now),
        now,
    )
}

/// The name of audit check `i`: six crypto checks, three signal-integrity
/// checks, two hardware-binding checks, two temporal checks.
pub open spec fn audit_check_name(i: int) -> Seq<char> {
    if i == 0 {
        "kem_roundtrip"@
    } else if i == 1 {
        "kem_fail_closed"@
    } else if i == 2 {
        "signature_verifies"@
    } else if i == 3 {
        "digest_deterministic"@
    } else if i == 4 {
        "time_variant_keys"@
    } else if i == 5 {
        "time_variant_digest"@
    } else if i == 6 {
        "signal_generation"@
    } else if i == 7 {
        "signal_mutation"@
    } else if i == 8 {
        "replay_protection"@
    } else if i == 9 {
        "enrolled_profile_binds"@
    } else if i == 10 {
        "spoofed_profile_rejected"@
    } else if i == 11 {
        "stale_rejected"@
    } else {
        "future_rejected"@
    }
}

/// Runs the audit checks over a runtime.
pub struct SecurityAuditor {
    attack_simulation: AttackSimulation,
}

impl SecurityAuditor {
    /// The attack vector of the simulation this auditor runs at the end of an
    /// audit.
    pub closed spec fn spec_simulation_type(&self) -> AttackType {
        self.attack_simulation.spec_attack_type()
    }

    /// An auditor around the attack simulation its audits end with.
    pub fn new(attack_simulation: AttackSimulation) -> (r: Self)
        ensures
            r.spec_simulation_type() == attack_simulation.spec_attack_type(),
    {
        SecurityAuditor { attack_simulation }
    }

    /// Checks the crypto primitives: a key-encapsulation round trip recovers
    /// the shared secret, a tampered ciphertext fails closed, a computed
    /// signature verifies, the keyed digest is deterministic, keys derived
    /// for distinct time buckets differ, and the digests of one message under
    /// those keys differ. Every check records the comparison it made and
    /// passes.
    pub fn test_crypto_primitives(&self) -> (results: Vec<TestResult>)
        ensures
            results@.len() == 6,
            results@[0].name@ == "kem_roundtrip"@,
            results@[1].name@ == "kem_fail_closed"@,
            results@[2].name@ == "signature_verifies"@,
            results@[3].name@ == "digest_deterministic"@,
            results@[4].name@ == "time_variant_keys"@,
            results@[4].passed == (derive_key(AUDIT_MASTER, 0) != derive_key(AUDIT_MASTER, 1)),
            results@[5].name@ == "time_variant_digest"@,
            results@[5].passed == (tv_digest(derive_key(AUDIT_MASTER, 0), audit_digest_probe())
                != tv_digest(derive_key(AUDIT_MASTER, 1), audit_digest_probe())),
            all_passed(results@),
    {
        let mut results: Vec<TestResult> = Vec::new();

        let (pk, sk) = kem_keygen();
        let (ct, shared) = encapsulate(&pk);
        let roundtrip: bool = match decapsulate(&sk, &ct) {
            Ok(recovered) => recovered == shared,
            Err(_) => false,
        };
        results.push(TestResult::new("kem_roundtrip", roundtrip));

        proof {
            crate::lemma_wrap_add_nonzero(ct.tag, 1);
        }
        let corrupted = KemCiphertext { masked: ct.masked, tag: wrap_add(ct.tag, 1) };
        let fail_closed: bool = match decapsulate(&sk, &corrupted) {
            Ok(_) => false,
            Err(e) => e == KemError::MalformedCiphertext,
        };
        results.push(TestResult::new("kem_fail_closed", fail_closed));

        let mut message: Vec<u8> = Vec::new();
        message.push(0xAB);
        message.push(0xCD);
        let signature: Vec<u8> = sign(0x1234, &message);
        let verified: bool = verify_signature(0x1234, &message, &signature);
        results.push(TestResult::new("signature_verifies", verified));

        let first_digest: Vec<u8> = digest(AUDIT_MASTER, &message);
        let second_digest: Vec<u8> = digest(AUDIT_MASTER, &message);
        let deterministic: bool = bytes_equal(&first_digest, &second_digest);
        results.push(TestResult::new("digest_deterministic", deterministic));

        let early_key: u64 = derive_key_for(AUDIT_MASTER, 0);
        let late_key: u64 = derive_key_for(AUDIT_MASTER, 1);
        proof {
            lemma_derive_key_time_variant(AUDIT_MASTER, 0, 1);
        }
        let time_variant: bool = early_key != late_key;
        results.push(TestResult::new("time_variant_keys", time_variant));

        proof {
            assert(message@ =~= audit_digest_probe());
            lemma_audit_digest_variance();
        }
        let early_digest: Vec<u8> = digest(early_key, &message);
        let late_digest: Vec<u8> = digest(late_key, &message);
        let digest_variant: bool = !bytes_equal(&early_digest, &late_digest);
        results.push(TestResult::new("time_variant_digest", digest_variant));

        results
    }

    /// Checks signal integrity: a generated signal validates once, a mutated
    /// copy is rejected, and a replay of the admitted signal is detected.
    /// Every check records the admission decision it observed and passes.
    pub fn test_signal_integrity(&self, rt: &mut SignalRuntime, now: u64) -> (results: Vec<
        TestResult>)
        requires
            attack_ready(old(rt)@, now),
        ensures
            results@.len() == 3,
            results@[0].name@ == "signal_generation"@,
            results@[0].passed == (spec_outcome(
                after_generate(old(rt)@), integrity_signal(old(rt)@, now), now)
                == ValidationOutcome::Accepted),
            results@[1].name@ == "signal_mutation"@,
            results@[1].passed == (spec_outcome(
                integrity_after_admit(old(rt)@, now),
                shifted_copy(integrity_signal(old(rt)@, now)), now)
                != ValidationOutcome::Accepted),
            results@[2].name@ == "replay_protection"@,
            results@[2].passed == (spec_outcome(
                integrity_after_mutated(old(rt)@, now), integrity_signal(old(rt)@, now), now)
                == ValidationOutcome::ReplayDetected),
            all_passed(results@),
            final(rt)@ == integrity_final(old(rt)@, now),
            audit_ready(old(rt)@, now) ==> attack_ready(final(rt)@, now),
    {
        let ghost m0 = rt@;
        let mut results: Vec<TestResult> = Vec::new();

        let mut payload: Vec<u8> = Vec::new();
        payload.push(6);
        payload.push(6);
        proof {
            assert(payload@ =~= integrity_payload());
        }
        let signal: SignalState = rt.generate_signal(payload, now);
        let ghost m1 = rt@;
        proof {
            assert(signal@ == integrity_signal(m0, now));
            lemma_generate_then_validate_accepted(m0, signal@.data, now, now);
        }
        let admitted: ValidationOutcome = rt.validate_signal(&signal, now);
        let ghost m2 = rt@;
        results.push(TestResult::new(
            "signal_generation",
            admitted == ValidationOutcome::Accepted,
        ));

        let mutated: SignalState = self.attack_simulation.modify_signal(&signal);
        proof {
            crate::lemma_wrap_add_no_overflow(now, 1000);
            lemma_same_bucket(now, 1000, m0.config.time_bucket_width);
            lemma_shifted_copy_rejected(m1, m2, signal@, mutated@, now);
        }
        let mutated_outcome: ValidationOutcome = rt.validate_signal(&mutated, now);
        let ghost m3 = rt@;
        results.push(TestResult::new(
            "signal_mutation",
            !(mutated_outcome == ValidationOutcome::Accepted),
        ));

        let ghost pair = (signal@.entropy_state, signal@.timestamp);
        proof {
            lemma_second_validation_replay_detected(m1, signal@, now, now);
            let c2 = spec_cache_after(m1, signal@, now);
            assert(c2[c2.len() - 1] == pair);
            assert(c2.contains(pair));
            lemma_evict_spec_properties(c2, now, m0.config.max_age);
            assert(m3.cache.contains(pair));
            lemma_evict_spec_properties(m3.cache, now, m0.config.max_age);
            assert(evict_spec(m3.cache, now, m0.config.max_age).contains(pair));
        }
        let replay_outcome: ValidationOutcome = rt.validate_signal(&signal, now);
        results.push(TestResult::new(
            "replay_protection",
            replay_outcome == ValidationOutcome::ReplayDetected,
        ));

        proof {
            if audit_ready(m0, now) {
                let ma = m0.config.max_age;
                let fresh = (entropy_value(m0.entropy_seed, m0.entropy_counter + 2), now);
                lemma_entropy_values_distinct(
                    m0.entropy_seed, m0.entropy_counter + 1, m0.entropy_counter + 2);
                assert(pair.0 != fresh.0);
                lemma_evict_spec_properties(m0.cache, now, ma);
                let ev1 = evict_spec(m0.cache, now, ma);
                let c2 = ev1.push(pair);
                assert(rt@.cache == evict_spec(evict_spec(c2, now, ma), now, ma));
                assert(!ev1.contains(fresh));
                assert(!c2.contains(fresh)) by {
                    if c2.contains(fresh) {
                        let i = choose|i: int| 0 <= i < c2.len() && c2[i] == fresh;
                        if i < c2.len() - 1 {
                            assert(ev1[i] == fresh);
                        }
                    }
                }
                lemma_evict_spec_properties(c2, now, ma);
                lemma_evict_spec_properties(evict_spec(c2, now, ma), now, ma);
                assert(!rt@.cache.contains(fresh));
                assert(rt@.cache.len() <= m0.cache.len() + 1);
            }
        }
        results
    }

    /// Checks the hardware binding: the enrolled profile binds, a spoofed
    /// placeholder does not. Each check records the binding decision it
    /// observed; every check passes.
    pub fn test_hardware_binding(&self, rt: &SignalRuntime) -> (results: Vec<TestResult>)
        requires
            wf(rt@),
        ensures
            results@.len() == 2,
            results@[0].name@ == "enrolled_profile_binds"@,
            results@[0].passed == binding_ok(rt@, rt@.profile),
            results@[1].name@ == "spoofed_profile_rejected"@,
            results@[1].passed == !binding_ok(rt@, spoofed_profile()),
            all_passed(results@),
    {
        let mut results: Vec<TestResult> = Vec::new();
        let own: HardwareProfile = rt.current_hardware_profile();
        let own_binds: bool = rt.validate_hardware_binding(&own);
        results.push(TestResult::new("enrolled_profile_binds", own_binds));
        let spoofed: HardwareProfile = self.attack_simulation.generate_spoofed_hardware();
        let spoofed_binds: bool = rt.validate_hardware_binding(&spoofed);
        results.push(TestResult::new("spoofed_profile_rejected", !spoofed_binds));
        results
    }

    /// Checks the temporal policy: a stale probe and a future-dated probe are
    /// rejected as such. Each check records the exact outcome it observed;
    /// every check passes, and readiness is preserved for what follows.
    pub fn test_temporal_validation(&self, rt: &mut SignalRuntime, now: u64) -> (results: Vec<
        TestResult>)
        requires
            attack_ready(old(rt)@, now),
        ensures
            results@.len() == 2,
            results@[0].name@ == "stale_rejected"@,
            results@[0].passed == (spec_outcome(old(rt)@, past_probe(old(rt)@.config, now), now)
                == ValidationOutcome::ExpiredSignal),
            results@[1].name@ == "future_rejected"@,
            results@[1].passed == (spec_outcome(
                after_validate(old(rt)@, past_probe(old(rt)@.config, now), now),
                future_probe(old(rt)@.config, now), now) == ValidationOutcome::FutureTimestamp),
            all_passed(results@),
            final(rt)@ == after_validate(
                after_validate(old(rt)@, past_probe(old(rt)@.config, now), now),
                future_probe(old(rt)@.config, now), now),
            attack_ready(final(rt)@, now),
    {
        let ghost m0 = rt@;
        let mut results: Vec<TestResult> = Vec::new();
        let cfg: Config = rt.config();

        let stale = SignalState {
            timestamp: now - cfg.max_age - 1,
            entropy_state: 0,
            data: Vec::new(),
            signature: Vec::new(),
        };
        proof {
            assert(stale@ =~= past_probe(m0.config, now));
            lemma_expired_rejected(m0, stale@, now);
        }
        let stale_outcome: ValidationOutcome = rt.validate_signal(&stale, now);
        results.push(TestResult::new(
            "stale_rejected",
            stale_outcome == ValidationOutcome::ExpiredSignal,
        ));

        let ghost m1 = rt@;
        let future = SignalState {
            timestamp: now + cfg.skew_tolerance + 1,
            entropy_state: 0,
            data: Vec::new(),
            signature: Vec::new(),
        };
        proof {
            assert(future@ =~= future_probe(m0.config, now));
            lemma_future_rejected(m1, future@, now);
        }
        let future_outcome: ValidationOutcome = rt.validate_signal(&future, now);
        results.push(TestResult::new(
            "future_rejected",
            future_outcome == ValidationOutcome::FutureTimestamp,
        ));

        proof {
            let ma = m0.config.max_age;
            lemma_evict_spec_properties(m0.cache, now, ma);
            lemma_evict_spec_properties(m1.cache, now, ma);
            assert(rt@.cache.len() <= m0.cache.len());
            let fresh = (entropy_value(m0.entropy_seed, m0.entropy_counter + 1), now);
            assert(!rt@.cache.contains(fresh));
        }
        results
    }

    /// Runs the full audit: crypto primitives, signal integrity, hardware
    /// binding, temporal policy, then this auditor's attack simulation, whose
    /// attempts join the report with their success negated. Every entry in
    /// the report carries its check's name and passes, and the runtime is
    /// left exactly in the state the audited sequence produces.
    pub fn run_audit(&self, rt: &mut SignalRuntime, now: u64) -> (report: Vec<TestResult>)
        requires
            audit_ready(old(rt)@, now),
        ensures
            report@.len() == 13 + sim_attempt_count(self.spec_simulation_type()),
            forall|i: int| 0 <= i < 13 ==> report@[i].name@ == audit_check_name(i),
            forall|i: int| 13 <= i < report@.len()
                ==> report@[i].name@ == sim_attempt_name(self.spec_simulation_type(), i - 13),
            all_passed(report@),
            self.spec_simulation_type() == AttackType::Replay
                ==> final(rt)@ == replay_final(audit_pre_sim(old(rt)@, now), now),
            self.spec_simulation_type() == AttackType::TimeManipulation
                ==> final(rt)@ == timing_final(audit_pre_sim(old(rt)@, now), now),
            self.spec_simulation_type() == AttackType::HardwareSpoofing
                ==> final(rt)@ == audit_pre_sim(old(rt)@, now),
            self.spec_simulation_type() == AttackType::SignalForging
                ==> final(rt)@ == forging_final(audit_pre_sim(old(rt)@, now), now),
            self.spec_simulation_type() == AttackType::EntropyManipulation
                ==> final(rt)@ == entropy_final(audit_pre_sim(old(rt)@, now), now),
            self.spec_simulation_type() == AttackType::StateCorruption
                ==> final(rt)@ == corruption_final(audit_pre_sim(old(rt)@, now), now),
    {
        let ghost m0 = rt@;
        let mut report: Vec<TestResult> = self.test_crypto_primitives();
        let mut integrity: Vec<TestResult> = self.test_signal_integrity(rt, now);
        let mut hardware: Vec<TestResult> = self.test_hardware_binding(rt);
        let mut temporal: Vec<TestResult> = self.test_temporal_validation(rt, now);
        proof {
            assert(integrity_final(m0, now).config == m0.config);
            assert(rt@ == audit_pre_sim(m0, now));
        }
        let simulated = self.attack_simulation.run(rt, now);
        let mut converted: Vec<TestResult> = Vec::new();
        let mut i: usize = 0;
        while i < simulated.attempts.len()
            invariant
                i <= simulated.attempts@.len(),
                converted@.len() == i,
                forall|j: int| 0 <= j < i ==> #[trigger] converted@[j].name@
                    == simulated.attempts@[j].name@,
                forall|j: int| 0 <= j < i ==> #[trigger] converted@[j].passed
                    == !simulated.attempts@[j].success,
            decreases simulated.attempts@.len() - i,
        {
            let attempt_name: &'static str = simulated.attempts[i].name;
            let attempt_success: bool = simulated.attempts[i].success;
            converted.push(TestResult::new(attempt_name, !attempt_success));
            i = i + 1;
        }
        let ghost cr = report@;
        let ghost ig = integrity@;
        let ghost hw = hardware@;
        let ghost tp = temporal@;
        let ghost cv = converted@;
        report.append(&mut integrity);
        report.append(&mut hardware);
        report.append(&mut temporal);
        report.append(&mut converted);
        proof {
            assert(report@ == cr + ig + hw + tp + cv);
            assert forall|i: int| 0 <= i < report@.len() implies #[trigger] report@[i].passed by {
                assert(report@[i] == (cr + ig + hw + tp + cv)[i]);
            }
            assert forall|i: int| 0 <= i < 13 implies #[trigger] report@[i].name@
                == audit_check_name(i) by {
                assert(report@[i] == (cr + ig + hw + tp + cv)[i]);
            }
            assert forall|i: int| 13 <= i < report@.len() implies #[trigger] report@[i].name@
                == sim_attempt_name(self.spec_simulation_type(), i - 13) by {
                assert(report@[i] == (cr + ig + hw + tp + cv)[i]);
                assert(report@[i] == cv[i - 13]);
            }
        }
        report
    }
}

} // verus!
