//! Attack drivers that exercise the runtime: replay, time manipulation,
//! hardware spoofing, signal forging, entropy manipulation and state
//! corruption. Each simulation's contract fixes the whole run: the result's
//! name, the number, names and order of the recorded attempts, the admission
//! decision each attempt records, the runtime state left behind — and that
//! every attempted attack is prevented.

use vstd::prelude::*;

use crate::{lemma_wrap_add_no_overflow, spec_wrap_add, wrap_add};
use crate::encoding::FINGERPRINT_LEN;
use crate::entropy::entropy_value;
use crate::hardware::{HardwareProfile, ProfileModel, all_zero, copy_profile};
use crate::tvhash::lemma_same_bucket;
use crate::laws::{
    lemma_expired_rejected, lemma_future_rejected, lemma_generate_then_validate_accepted,
    lemma_payload_tamper_rejected, lemma_second_validation_replay_detected,
    lemma_shifted_copy_rejected,
};
use crate::runtime::{
    Config, RuntimeModel, SignalModel, SignalRuntime, SignalState, ValidationOutcome,
    after_generate, after_validate, binding_ok, entry_live, evict_spec, generated_signal, hw_ok,
    lemma_evict_spec_properties, signature_for, spec_cache_after, spec_outcome, wf,
};

verus! {

/// The attack vector a simulation exercises.
#[derive(Debug, Clone, Copy, PartialEq, Eq, Structural)]
pub enum AttackType {
    Replay,
    TimeManipulation,
    HardwareSpoofing,
    SignalForging,
    EntropyManipulation,
    StateCorruption,
}

/// One attempted attack and whether it succeeded.
#[derive(Debug)]
pub struct AttemptResult {
    pub name: &'static str,
    pub success: bool,
}

/// The attempts one simulation made.
#[derive(Debug)]
pub struct SimulationResults {
    pub test_name: &'static str,
    pub attempts: Vec<AttemptResult>,
}

/// No recorded attempt succeeded.
pub open spec fn all_prevented(r: SimulationResults) -> bool {
    forall|i: int| 0 <= i < r.attempts@.len() ==> !r.attempts@[i].success
}

impl SimulationResults {
    /// An empty result set for one named simulation.
    pub fn new(test_name: &'static str) -> (r: Self)
        ensures
            r.test_name@ == test_name@,
            r.attempts@.len() == 0,
    {
        SimulationResults { test_name, attempts: Vec::new() }
    }

    /// Records one named attempt: it succeeded exactly if it was not
    /// prevented. Earlier attempts and the result's name are untouched.
    pub fn add_attempt(&mut self, name: &'static str, prevented: bool)
        ensures
            final(self).test_name@ == old(self).test_name@,
            final(self).attempts@.len() == old(self).attempts@.len() + 1,
            final(self).attempts@[old(self).attempts@.len() as int].name@ == name@,
            final(self).attempts@[old(self).attempts@.len() as int].success == !prevented,
            forall|i: int| 0 <= i < old(self).attempts@.len()
                ==> final(self).attempts@[i] == old(self).attempts@[i],
    {
        self.attempts.push(AttemptResult { name, success: !prevented });
    }
}

/// A vector of `n` zero bytes.
fn zero_bytes(n: usize) -> (r: Vec<u8>)
    ensures
        r@ =~= Seq::new(n as nat, |i: int| 0u8),
{
    let mut out: Vec<u8> = Vec::new();
    let mut i: usize = 0;
    while i < n
        invariant
            i <= n,
            out@.len() == i,
            all_zero(out@),
        decreases n - i,
    {
        out.push(0);
        i = i + 1;
    }
    out
}

/// A runtime state and a clock reading against which the simulations' proofs
/// go through: the runtime is well-formed with entropy and cache headroom,
/// the clock sits past the acceptance window with the probes' forward shifts
/// (up to the one-minute delayed replay plus the window widths) staying below
/// `u64::MAX`, and the entropy value about to be issued has never been
/// admitted at this clock reading. Nanoseconds since the Unix epoch satisfy
/// the overflow headroom for centuries.
/// The two bucket clauses keep the clock away from the next time-bucket
/// boundary: the simulations shift captured timestamps forward by up to a
/// microsecond, and a shift that crosses into the next bucket changes the
/// effective key, where this signature scheme pins nothing two keys have in
/// common — rejection of a cross-bucket shift is real but not provable, so
/// the drivers stay inside one bucket.
pub open spec fn attack_ready(m: RuntimeModel, now: u64) -> bool {
    &&& wf(m)
    &&& m.entropy_counter + 4 < u64::MAX
    &&& now + m.config.skew_tolerance + m.config.max_age + 60_000_000_100 <= u64::MAX
    &&& now > m.config.skew_tolerance + m.config.max_age + 10000
    &&& m.config.time_bucket_width > 2000
    &&& now % m.config.time_bucket_width + 2000 < m.config.time_bucket_width
    &&& m.cache.len() + 4 < m.config.replay_cache_capacity
    &&& !m.cache.contains((entropy_value(m.entropy_seed, m.entropy_counter + 1), now))
}

/// The payload the replay and corruption drivers sign.
pub open spec fn probe_payload() -> Seq<u8> {
    seq![1u8, 2u8, 3u8]
}

/// The corrupted copy of `probe_payload` (last byte raised).
pub open spec fn corrupted_payload() -> Seq<u8> {
    seq![1u8, 2u8, 4u8]
}

/// The payload the timing driver signs.
pub open spec fn timing_payload() -> Seq<u8> {
    seq![7u8]
}

/// The payload the forging driver signs.
pub open spec fn forging_payload() -> Seq<u8> {
    seq![9u8, 8u8]
}

/// The payload the entropy driver signs.
pub open spec fn entropy_payload() -> Seq<u8> {
    seq![4u8, 2u8]
}

/// The image of a captured signal under `modify_signal`: entropy value
/// incremented, timestamp shifted a microsecond forward, payload and
/// signature kept.
pub open spec fn shifted_copy(s: SignalModel) -> SignalModel {
    SignalModel {
        timestamp: spec_wrap_add(s.timestamp, 1000),
        entropy_state: spec_wrap_add(s.entropy_state, 1),
        data: s.data,
        signature: s.signature,
    }
}

/// A bare signal carrying only a timestamp: empty payload, empty signature.
pub open spec fn empty_probe(ts: u64) -> SignalModel {
    SignalModel { timestamp: ts, entropy_state: 0, data: Seq::empty(), signature: Seq::empty() }
}

/// A probe dated just beyond the skew tolerance into the future.
pub open spec fn future_probe(c: Config, now: u64) -> SignalModel {
    empty_probe((now + c.skew_tolerance + 1) as u64)
}

/// A probe dated just beyond the maximum age into the past.
pub open spec fn past_probe(c: Config, now: u64) -> SignalModel {
    empty_probe((now - c.max_age - 1) as u64)
}

/// The all-zero placeholder profile the spoofing driver presents.
pub open spec fn spoofed_profile() -> ProfileModel {
    ProfileModel {
        fingerprint: Seq::new(FINGERPRINT_LEN as nat, |i: int| 0u8),
        features: Seq::empty(),
        capabilities: Seq::empty(),
    }
}

/// The spoofed profile with its first fingerprint byte raised.
pub open spec fn modified_spoofed_profile() -> ProfileModel {
    ProfileModel {
        fingerprint: spoofed_profile().fingerprint.update(0, 1u8),
        features: spoofed_profile().features,
        capabilities: spoofed_profile().capabilities,
    }
}

/// The forged signal for a given drawn entropy value: zero payload of 32
/// bytes, zero signature of 64 bytes.
pub open spec fn forged_probe(now: u64, entropy: u64) -> SignalModel {
    SignalModel {
        timestamp: now,
        entropy_state: entropy,
        data: Seq::new(32, |i: int| 0u8),
        signature: Seq::new(64, |i: int| 0u8),
    }
}

/// The validation time of the delayed replay.
pub open spec fn delayed_time(now: u64) -> u64 {
    (now + 60_000_000_000) as u64
}

/// The signal the replay driver captures.
pub open spec fn replay_signal(m: RuntimeModel, now: u64) -> SignalModel {
    generated_signal(m, probe_payload(), now)
}

/// The runtime after the captured signal was consumed legitimately.
pub open spec fn replay_after_first(m: RuntimeModel, now: u64) -> RuntimeModel {
    after_validate(after_generate(m), replay_signal(m, now), now)
}

/// The runtime after the immediate replay was rejected.
pub open spec fn replay_after_immediate(m: RuntimeModel, now: u64) -> RuntimeModel {
    after_validate(replay_after_first(m, now), replay_signal(m, now), now)
}

/// The runtime after the delayed replay was rejected.
pub open spec fn replay_after_delayed(m: RuntimeModel, now: u64) -> RuntimeModel {
    after_validate(replay_after_immediate(m, now), replay_signal(m, now), delayed_time(now))
}

/// The runtime the replay driver leaves behind.
pub open spec fn replay_final(m: RuntimeModel, now: u64) -> RuntimeModel {
    after_validate(replay_after_delayed(m, now), shifted_copy(replay_signal(m, now)), now)
}

/// The runtime after the future-dated probe was rejected.
pub open spec fn timing_after_future(m: RuntimeModel, now: u64) -> RuntimeModel {
    after_validate(m, future_probe(m.config, now), now)
}

/// The runtime after the stale probe was rejected.
pub open spec fn timing_after_past(m: RuntimeModel, now: u64) -> RuntimeModel {
    after_validate(timing_after_future(m, now), past_probe(m.config, now), now)
}

/// The legitimate signal whose timestamp the timing driver shifts.
pub open spec fn timing_signal(m: RuntimeModel, now: u64) -> SignalModel {
    generated_signal(timing_after_past(m, now), timing_payload(), now)
}

/// The captured signal with only its timestamp shifted half a microsecond.
pub open spec fn timing_shift(s: SignalModel) -> SignalModel {
    SignalModel { timestamp: spec_wrap_add(s.timestamp, 500), ..s }
}

/// The runtime the timing driver leaves behind.
pub open spec fn timing_final(m: RuntimeModel, now: u64) -> RuntimeModel {
    after_validate(
        after_generate(timing_after_past(m, now)),
        timing_shift(timing_signal(m, now)),
        now,
    )
}

/// The runtime after the forged signal was rejected: only eviction ran.
pub open spec fn forging_after_forged(m: RuntimeModel, now: u64) -> RuntimeModel {
    RuntimeModel { cache: evict_spec(m.cache, now, m.config.max_age), ..m }
}

/// The legitimate signal the forging driver then modifies.
pub open spec fn forging_signal(m: RuntimeModel, now: u64) -> SignalModel {
    generated_signal(forging_after_forged(m, now), forging_payload(), now)
}

/// The runtime the forging driver leaves behind.
pub open spec fn forging_final(m: RuntimeModel, now: u64) -> RuntimeModel {
    after_validate(
        after_generate(forging_after_forged(m, now)),
        shifted_copy(forging_signal(m, now)),
        now,
    )
}

/// The signal whose entropy value the entropy driver increments.
pub open spec fn entropy_signal(m: RuntimeModel, now: u64) -> SignalModel {
    generated_signal(m, entropy_payload(), now)
}

/// The captured signal with only its entropy value incremented.
pub open spec fn entropy_bumped(s: SignalModel) -> SignalModel {
    SignalModel { entropy_state: spec_wrap_add(s.entropy_state, 1), ..s }
}

/// The runtime the entropy driver leaves behind.
pub open spec fn entropy_final(m: RuntimeModel, now: u64) -> RuntimeModel {
    after_validate(after_generate(m), entropy_bumped(entropy_signal(m, now)), now)
}

/// The signal whose payload the corruption driver replaces.
pub open spec fn corruption_signal(m: RuntimeModel, now: u64) -> SignalModel {
    generated_signal(m, probe_payload(), now)
}

/// The captured signal with only its payload corrupted.
pub open spec fn corrupted_copy(s: SignalModel) -> SignalModel {
    SignalModel { data: corrupted_payload(), ..s }
}

/// The runtime the corruption driver leaves behind.
pub open spec fn corruption_final(m: RuntimeModel, now: u64) -> RuntimeModel {
    after_validate(after_generate(m), corrupted_copy(corruption_signal(m, now)), now)
}

/// The result name of each attack vector's simulation.
pub open spec fn sim_test_name(t: AttackType) -> Seq<char> {
    match t {
        AttackType::Replay => "replay_attack"@,
        AttackType::TimeManipulation => "time_manipulation"@,
        AttackType::HardwareSpoofing => "hardware_spoofing"@,
        AttackType::SignalForging => "signal_forging"@,
        AttackType::EntropyManipulation => "entropy_manipulation"@,
        AttackType::StateCorruption => "state_corruption"@,
    }
}

/// How many attempts each attack vector's simulation records.
pub open spec fn sim_attempt_count(t: AttackType) -> int {
    match t {
        AttackType::Replay => 3,
        AttackType::TimeManipulation => 3,
        AttackType::HardwareSpoofing => 2,
        AttackType::SignalForging => 2,
        AttackType::EntropyManipulation => 1,
        AttackType::StateCorruption => 1,
    }
}

/// The name of attempt `i` of each attack vector's simulation.
pub open spec fn sim_attempt_name(t: AttackType, i: int) -> Seq<char> {
    match t {
        AttackType::Replay => if i == 0 {
            "immediate_replay"@
        } else if i == 1 {
            "delayed_replay"@
        } else {
            "modified_replay"@
        },
        AttackType::TimeManipulation => if i == 0 {
            "future_timestamps"@
        } else if i == 1 {
            "past_timestamps"@
        } else {
            "validation_timing"@
        },
        AttackType::HardwareSpoofing => if i == 0 {
            "hardware_spoofing"@
        } else {
            "partial_modification"@
        },
        AttackType::SignalForging => if i == 0 {
            "signal_forging"@
        } else {
            "signal_modification"@
        },
        AttackType::EntropyManipulation => "entropy_manipulation"@,
        AttackType::StateCorruption => "state_corruption"@,
    }
}

/// A simulation of one attack vector against a signal runtime.
pub struct AttackSimulation {
    attack_type: AttackType,
}

impl AttackSimulation {
    /// The vector this simulation exercises.
    pub closed spec fn spec_attack_type(&self) -> AttackType {
        self.attack_type
    }

    /// A simulation of the given attack vector.
    pub fn new(attack_type: AttackType) -> (r: Self)
        ensures
            r.spec_attack_type() == attack_type,
    {
        AttackSimulation { attack_type }
    }

    /// Runs exactly the simulation of the vector this simulator was built
    /// for: the result carries that vector's name and its attempts under
    /// their names, every attempt is prevented, and the runtime is left in
    /// that simulation's (and no other's) final state.
    pub fn run(&self, rt: &mut SignalRuntime, now: u64) -> (r: SimulationResults)
        requires
            attack_ready(old(rt)@, now),
        ensures
            r.test_name@ == sim_test_name(self.spec_attack_type()),
            r.attempts@.len() == sim_attempt_count(self.spec_attack_type()),
            forall|i: int| 0 <= i < r.attempts@.len()
                ==> r.attempts@[i].name@ == sim_attempt_name(self.spec_attack_type(), i),
            all_prevented(r),
            self.spec_attack_type() == AttackType::Replay
                ==> final(rt)@ == replay_final(old(rt)@, now),
            self.spec_attack_type() == AttackType::TimeManipulation
                ==> final(rt)@ == timing_final(old(rt)@, now),
            self.spec_attack_type() == AttackType::HardwareSpoofing
                ==> final(rt)@ == old(rt)@,
            self.spec_attack_type() == AttackType::SignalForging
                ==> final(rt)@ == forging_final(old(rt)@, now),
            self.spec_attack_type() == AttackType::EntropyManipulation
                ==> final(rt)@ == entropy_final(old(rt)@, now),
            self.spec_attack_type() == AttackType::StateCorruption
                ==> final(rt)@ == corruption_final(old(rt)@, now),
    {
        match self.attack_type {
            AttackType::Replay => self.simulate_replay_attack(rt, now),
            AttackType::TimeManipulation => self.simulate_time_manipulation(rt, now),
            AttackType::HardwareSpoofing => self.simulate_hardware_spoofing(rt),
            AttackType::SignalForging => self.simulate_signal_forging(rt, now),
            AttackType::EntropyManipulation => self.simulate_entropy_manipulation(rt, now),
            AttackType::StateCorruption => self.simulate_state_corruption(rt, now),
        }
    }

    /// Captures a legitimate signal, lets it be consumed once, then attempts
    /// an immediate replay, a delayed replay, and a modified replay. Each
    /// attempt records whether its validation was accepted; all three are
    /// prevented.
    pub fn simulate_replay_attack(&self, rt: &mut SignalRuntime, now: u64) -> (r:
        SimulationResults)
        requires
            attack_ready(old(rt)@, now),
        ensures
            r.test_name@ == "replay_attack"@,
            r.attempts@.len() == 3,
            r.attempts@[0].name@ == "immediate_replay"@,
            r.attempts@[0].success == (spec_outcome(
                replay_after_first(old(rt)@, now), replay_signal(old(rt)@, now), now)
                == ValidationOutcome::Accepted),
            r.attempts@[1].name@ == "delayed_replay"@,
            r.attempts@[1].success == (spec_outcome(
                replay_after_immediate(old(rt)@, now), replay_signal(old(rt)@, now),
                delayed_time(now)) == ValidationOutcome::Accepted),
            r.attempts@[2].name@ == "modified_replay"@,
            r.attempts@[2].success == (spec_outcome(
                replay_after_delayed(old(rt)@, now),
                shifted_copy(replay_signal(old(rt)@, now)), now) == ValidationOutcome::Accepted),
            all_prevented(r),
            final(rt)@ == replay_final(old(rt)@, now),
    {
        let ghost m0 = rt@;
        let mut results = SimulationResults::new("replay_attack");

        let mut payload: Vec<u8> = Vec::new();
        payload.push(1);
        payload.push(2);
        payload.push(3);
        proof {
            assert(payload@ =~= probe_payload());
        }
        let original_signal: SignalState = rt.generate_signal(payload, now);
        let ghost m1 = rt@;
        proof {
            assert(original_signal@ == replay_signal(m0, now));
            lemma_generate_then_validate_accepted(m0, original_signal@.data, now, now);
        }
        let first: ValidationOutcome = rt.validate_signal(&original_signal, now);
        let ghost m2 = rt@;
        assert(first == ValidationOutcome::Accepted);
        assert(m2 == replay_after_first(m0, now));

        proof {
            lemma_second_validation_replay_detected(m1, original_signal@, now, now);
        }
        let immediate: ValidationOutcome = rt.validate_signal(&original_signal, now);
        let ghost m3 = rt@;
        assert(immediate == ValidationOutcome::ReplayDetected);
        results.add_attempt("immediate_replay", !(immediate == ValidationOutcome::Accepted));

        let delayed_now: u64 = now + 60_000_000_000;
        proof {
            let pair = (original_signal@.entropy_state, original_signal@.timestamp);
            let c2 = m2.cache;
            assert(c2 == spec_cache_after(m1, original_signal@, now));
            assert(c2[c2.len() - 1] == pair);
            assert(c2.contains(pair));
            lemma_evict_spec_properties(c2, now, m0.config.max_age);
            assert(entry_live(pair, now, m0.config.max_age));
            assert(m3.cache.contains(pair));
            if !(original_signal@.timestamp + m0.config.max_age < delayed_now) {
                lemma_evict_spec_properties(m3.cache, delayed_now, m0.config.max_age);
                assert(entry_live(pair, delayed_now, m0.config.max_age));
                assert(evict_spec(m3.cache, delayed_now, m0.config.max_age).contains(pair));
                assert(hw_ok(m3));
                assert(signature_for(m3, now, original_signal@.entropy_state,
                    original_signal@.data)
                    == signature_for(m0, now, original_signal@.entropy_state,
                        original_signal@.data));
                assert(spec_outcome(m3, original_signal@, delayed_now)
                    == ValidationOutcome::ReplayDetected);
            } else {
                assert(spec_outcome(m3, original_signal@, delayed_now)
                    == ValidationOutcome::ExpiredSignal);
            }
        }
        let delayed: ValidationOutcome = rt.validate_signal(&original_signal, delayed_now);
        let ghost m4 = rt@;
        assert(!(delayed == ValidationOutcome::Accepted));
        results.add_attempt("delayed_replay", !(delayed == ValidationOutcome::Accepted));

        let modified_signal: SignalState = self.modify_signal(&original_signal);
        proof {
            lemma_wrap_add_no_overflow(now, 1000);
            lemma_same_bucket(now, 1000, m0.config.time_bucket_width);
            lemma_shifted_copy_rejected(m0, m4, original_signal@, modified_signal@, now);
        }
        let modified: ValidationOutcome = rt.validate_signal(&modified_signal, now);
        assert(!(modified == ValidationOutcome::Accepted));
        results.add_attempt("modified_replay", !(modified == ValidationOutcome::Accepted));

        results
    }

    /// Attempts a future-dated probe, a stale probe, and a timestamp shift on
    /// a legitimate signal during validation. Each attempt records whether
    /// its validation was accepted; all three are prevented.
    pub fn simulate_time_manipulation(&self, rt: &mut SignalRuntime, now: u64) -> (r:
        SimulationResults)
        requires
            attack_ready(old(rt)@, now),
        ensures
            r.test_name@ == "time_manipulation"@,
            r.attempts@.len() == 3,
            r.attempts@[0].name@ == "future_timestamps"@,
            r.attempts@[0].success == (spec_outcome(
                old(rt)@, future_probe(old(rt)@.config, now), now)
                == ValidationOutcome::Accepted),
            r.attempts@[1].name@ == "past_timestamps"@,
            r.attempts@[1].success == (spec_outcome(
                timing_after_future(old(rt)@, now), past_probe(old(rt)@.config, now), now)
                == ValidationOutcome::Accepted),
            r.attempts@[2].name@ == "validation_timing"@,
            r.attempts@[2].success == (spec_outcome(
                after_generate(timing_after_past(old(rt)@, now)),
                timing_shift(timing_signal(old(rt)@, now)), now) == ValidationOutcome::Accepted),
            all_prevented(r),
            final(rt)@ == timing_final(old(rt)@, now),
    {
        let ghost m0 = rt@;
        let mut results = SimulationResults::new("time_manipulation");
        let cfg: Config = rt.config();

        let future_ts: u64 = now + cfg.skew_tolerance + 1;
        let forged_future = SignalState {
            timestamp: future_ts,
            entropy_state: 0,
            data: Vec::new(),
            signature: Vec::new(),
        };
        proof {
            assert(forged_future@ =~= future_probe(m0.config, now));
            lemma_future_rejected(m0, forged_future@, now);
        }
        let f_out: ValidationOutcome = rt.validate_signal(&forged_future, now);
        let ghost m1 = rt@;
        results.add_attempt("future_timestamps", !(f_out == ValidationOutcome::Accepted));

        let past_ts: u64 = now - cfg.max_age - 1;
        let forged_past = SignalState {
            timestamp: past_ts,
            entropy_state: 0,
            data: Vec::new(),
            signature: Vec::new(),
        };
        proof {
            assert(forged_past@ =~= past_probe(m0.config, now));
            lemma_expired_rejected(m1, forged_past@, now);
        }
        let p_out: ValidationOutcome = rt.validate_signal(&forged_past, now);
        let ghost m2 = rt@;
        results.add_attempt("past_timestamps", !(p_out == ValidationOutcome::Accepted));

        let mut payload: Vec<u8> = Vec::new();
        payload.push(7);
        proof {
            assert(payload@ =~= timing_payload());
            assert(wf(m2));
        }
        let legit: SignalState = rt.generate_signal(payload, now);
        let ghost m3 = rt@;
        let mut shifted: SignalState = legit.duplicate();
        shifted.timestamp = wrap_add(shifted.timestamp, 500);
        proof {
            assert(legit@ == timing_signal(m0, now));
            assert(shifted@ == timing_shift(timing_signal(m0, now)));
            lemma_wrap_add_no_overflow(now, 500);
            lemma_same_bucket(now, 500, m0.config.time_bucket_width);
            lemma_shifted_copy_rejected(m2, m3, legit@, shifted@, now);
        }
        let s_out: ValidationOutcome = rt.validate_signal(&shifted, now);
        assert(!(s_out == ValidationOutcome::Accepted));
        results.add_attempt("validation_timing", !(s_out == ValidationOutcome::Accepted));

        results
    }

    /// Attempts a placeholder hardware profile and a partial modification of
    /// it. Each attempt records whether the binding validated; both are
    /// prevented, and the runtime is untouched.
    pub fn simulate_hardware_spoofing(&self, rt: &SignalRuntime) -> (r: SimulationResults)
        ensures
            r.test_name@ == "hardware_spoofing"@,
            r.attempts@.len() == 2,
            r.attempts@[0].name@ == "hardware_spoofing"@,
            r.attempts@[0].success == binding_ok(rt@, spoofed_profile()),
            r.attempts@[1].name@ == "partial_modification"@,
            r.attempts@[1].success == binding_ok(rt@, modified_spoofed_profile()),
            all_prevented(r),
    {
        let mut results = SimulationResults::new("hardware_spoofing");

        let spoofed_hw: HardwareProfile = self.generate_spoofed_hardware();
        let hw_result: bool = rt.validate_hardware_binding(&spoofed_hw);
        assert(!hw_result);
        results.add_attempt("hardware_spoofing", !hw_result);

        let modified_hw: HardwareProfile = self.modify_hardware_profile(&spoofed_hw);
        proof {
            assert(modified_hw@ =~= modified_spoofed_profile());
        }
        let mod_result: bool = rt.validate_hardware_binding(&modified_hw);
        assert(!mod_result);
        results.add_attempt("partial_modification", !mod_result);

        results
    }

    /// Attempts a forged signal built from scratch — rejected as malformed
    /// whatever entropy value it drew — and a modification of a legitimate
    /// signal. Each attempt records whether its validation was accepted; both
    /// are prevented.
    pub fn simulate_signal_forging(&self, rt: &mut SignalRuntime, now: u64) -> (r:
        SimulationResults)
        requires
            attack_ready(old(rt)@, now),
        ensures
            r.test_name@ == "signal_forging"@,
            r.attempts@.len() == 2,
            r.attempts@[0].name@ == "signal_forging"@,
            !r.attempts@[0].success,
            forall|e: u64| spec_outcome(old(rt)@, forged_probe(now, e), now)
                == ValidationOutcome::MalformedInput,
            r.attempts@[1].name@ == "signal_modification"@,
            r.attempts@[1].success == (spec_outcome(
                after_generate(forging_after_forged(old(rt)@, now)),
                shifted_copy(forging_signal(old(rt)@, now)), now) == ValidationOutcome::Accepted),
            all_prevented(r),
            final(rt)@ == forging_final(old(rt)@, now),
    {
        let ghost m0 = rt@;
        let mut results = SimulationResults::new("signal_forging");

        let forged_signal: SignalState = self.generate_forged_signal(now);
        proof {
            assert(hw_ok(m0));
            assert(forged_signal@ =~= forged_probe(now, forged_signal@.entropy_state));
            assert forall|e: u64|
                spec_outcome(m0, forged_probe(now, e), now) == ValidationOutcome::MalformedInput
            by {
                assert(forged_probe(now, e).signature.len() == 64);
                assert(forged_probe(now, e).data.len() == 32);
            }
        }
        let forge_result: ValidationOutcome = rt.validate_signal(&forged_signal, now);
        let ghost m1 = rt@;
        proof {
            assert(m1 =~= forging_after_forged(m0, now));
        }
        results.add_attempt("signal_forging", !(forge_result == ValidationOutcome::Accepted));

        let mut payload: Vec<u8> = Vec::new();
        payload.push(9);
        payload.push(8);
        proof {
            assert(payload@ =~= forging_payload());
            assert(wf(m1));
        }
        let legitimate_signal: SignalState = rt.generate_signal(payload, now);
        let ghost m2 = rt@;
        let modified_signal: SignalState = self.modify_signal(&legitimate_signal);
        proof {
            assert(legitimate_signal@ == forging_signal(m0, now));
            lemma_wrap_add_no_overflow(now, 1000);
            lemma_same_bucket(now, 1000, m0.config.time_bucket_width);
            lemma_shifted_copy_rejected(m1, m2, legitimate_signal@, modified_signal@, now);
        }
        let mod_result: ValidationOutcome = rt.validate_signal(&modified_signal, now);
        assert(!(mod_result == ValidationOutcome::Accepted));
        results.add_attempt("signal_modification", !(mod_result == ValidationOutcome::Accepted));

        results
    }

    /// Attempts to increment a captured signal's entropy value. The tampered
    /// value is one the entropy manager never issued under this signature;
    /// the attempt records whether its validation was accepted, and it is
    /// prevented.
    pub fn simulate_entropy_manipulation(&self, rt: &mut SignalRuntime, now: u64) -> (r:
        SimulationResults)
        requires
            attack_ready(old(rt)@, now),
        ensures
            r.test_name@ == "entropy_manipulation"@,
            r.attempts@.len() == 1,
            r.attempts@[0].name@ == "entropy_manipulation"@,
            r.attempts@[0].success == (spec_outcome(
                after_generate(old(rt)@), entropy_bumped(entropy_signal(old(rt)@, now)), now)
                == ValidationOutcome::Accepted),
            all_prevented(r),
            final(rt)@ == entropy_final(old(rt)@, now),
    {
        let ghost m0 = rt@;
        let mut results = SimulationResults::new("entropy_manipulation");

        let mut payload: Vec<u8> = Vec::new();
        payload.push(4);
        payload.push(2);
        proof {
            assert(payload@ =~= entropy_payload());
        }
        let legit: SignalState = rt.generate_signal(payload, now);
        let ghost m1 = rt@;
        let mut tampered: SignalState = legit.duplicate();
        tampered.entropy_state = wrap_add(tampered.entropy_state, 1);
        proof {
            assert(legit@ == entropy_signal(m0, now));
            assert(tampered@ == entropy_bumped(entropy_signal(m0, now)));
            assert(crate::laws::authentic(m1, legit@));
            crate::laws::lemma_entropy_tamper_rejected(m1, legit@, now, 1);
        }
        let outcome: ValidationOutcome = rt.validate_signal(&tampered, now);
        assert(outcome == ValidationOutcome::SignatureInvalid);
        results.add_attempt("entropy_manipulation", !(outcome == ValidationOutcome::Accepted));

        results
    }

    /// Attempts to corrupt a captured signal's payload while keeping its
    /// signature; the attempt records whether its validation was accepted,
    /// and it is prevented.
    pub fn simulate_state_corruption(&self, rt: &mut SignalRuntime, now: u64) -> (r:
        SimulationResults)
        requires
            attack_ready(old(rt)@, now),
        ensures
            r.test_name@ == "state_corruption"@,
            r.attempts@.len() == 1,
            r.attempts@[0].name@ == "state_corruption"@,
            r.attempts@[0].success == (spec_outcome(
                after_generate(old(rt)@), corrupted_copy(corruption_signal(old(rt)@, now)), now)
                == ValidationOutcome::Accepted),
            all_prevented(r),
            final(rt)@ == corruption_final(old(rt)@, now),
    {
        let ghost m0 = rt@;
        let mut results = SimulationResults::new("state_corruption");

        let mut payload: Vec<u8> = Vec::new();
        payload.push(1);
        payload.push(2);
        payload.push(3);
        proof {
            assert(payload@ =~= probe_payload());
        }
        let legit: SignalState = rt.generate_signal(payload, now);
        let ghost m1 = rt@;
        let mut corrupted: SignalState = legit.duplicate();
        let mut new_data: Vec<u8> = Vec::new();
        new_data.push(1);
        new_data.push(2);
        new_data.push(4);
        corrupted.data = new_data;
        proof {
            assert(legit@ == corruption_signal(m0, now));
            assert(corrupted@.data =~= corrupted_payload());
            assert(corrupted@ =~= corrupted_copy(corruption_signal(m0, now)));
            assert(crate::laws::authentic(m1, legit@));
            assert(corrupted@.data != legit@.data) by {
                if corrupted@.data == legit@.data {
                    assert(corrupted@.data[2] == legit@.data[2]);
                }
            }
            lemma_payload_tamper_rejected(m1, legit@, now, corrupted@.data);
        }
        let outcome: ValidationOutcome = rt.validate_signal(&corrupted, now);
        assert(outcome == ValidationOutcome::SignatureInvalid);
        results.add_attempt("state_corruption", !(outcome == ValidationOutcome::Accepted));

        results
    }

    /// A captured signal with its entropy value incremented and its timestamp
    /// shifted forward, keeping payload and signature.
    pub fn modify_signal(&self, signal: &SignalState) -> (r: SignalState)
        ensures
            r@ == shifted_copy(signal@),
    {
        let mut modified: SignalState = signal.duplicate();
        modified.entropy_state = wrap_add(modified.entropy_state, 1);
        modified.timestamp = wrap_add(modified.timestamp, 1000);
        proof {
            assert(modified@ =~= shifted_copy(signal@));
        }
        modified
    }

    /// A placeholder hardware profile: all-zero fingerprint, no features, no
    /// capabilities.
    pub fn generate_spoofed_hardware(&self) -> (r: HardwareProfile)
        ensures
            r@ == spoofed_profile(),
    {
        let r = HardwareProfile {
            fingerprint: zero_bytes(FINGERPRINT_LEN),
            features: Vec::new(),
            capabilities: Vec::new(),
        };
        proof {
            assert(r@ =~= spoofed_profile());
        }
        r
    }

    /// A partial modification of a profile: one fingerprint byte raised,
    /// feature and capability sets kept.
    pub fn modify_hardware_profile(&self, p: &HardwareProfile) -> (r: HardwareProfile)
        requires
            p@.fingerprint.len() > 0,
        ensures
            r@ == (ProfileModel {
                fingerprint: p@.fingerprint.update(0, 1u8),
                features: p@.features,
                capabilities: p@.capabilities,
            }),
    {
        let mut modified: HardwareProfile = copy_profile(p);
        modified.fingerprint.set(0, 1);
        proof {
            assert(modified@ =~= (ProfileModel {
                fingerprint: p@.fingerprint.update(0, 1u8),
                features: p@.features,
                capabilities: p@.capabilities,
            }));
        }
        modified
    }

    /// A signal forged from scratch: the given timestamp, a freshly drawn
    /// entropy value, a 32-byte all-zero payload and a 64-byte all-zero
    /// signature. Whatever entropy value was drawn, every other field is
    /// pinned down.
    pub fn generate_forged_signal(&self, now: u64) -> (r: SignalState)
        ensures
            r@ == forged_probe(now, r@.entropy_state),
            r@.timestamp == now,
            all_zero(r@.data),
            all_zero(r@.signature),
            r@.data.len() == 32,
            r@.signature.len() == 64,
    {
        let r = SignalState {
            timestamp: now,
            entropy_state: rand::random::<u64>(),
            data: zero_bytes(32),
            signature: zero_bytes(64),
        };
        proof {
            assert(r@ =~= forged_probe(now, r@.entropy_state));
        }
        r
    }
}

} // verus!
