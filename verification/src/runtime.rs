//! Signal runtime: orchestrates the entropy manager, the hardware binder, the
//! time-variant hash and the signature scheme to produce and verify signals;
//! owns the replay cache and the temporal-validation policy.
//!
//! Validation is fail-closed and composed of independent checks, all of which
//! must pass: the temporal window, the hardware binding, the structural shape
//! of the signature, the signature itself (recomputed under the bucket key of
//! the signal's claimed timestamp, so a signal stays verifiable across a
//! bucket boundary), and the replay cache. Admission inserts the signal's
//! `(entropy_state, timestamp)` pair into the cache in the same exclusive
//! critical section (`&mut self`) as the checks, so two validations of one
//! captured signal can never both succeed.

use vstd::prelude::*;

use crate::encoding::{FINGERPRINT_LEN, bound_message, encode_bound_message};
use crate::tvhash::{bucket, bucket_of, derive_key, derive_key_for};
use crate::crypto::{
    SIGNATURE_OVERHEAD, sign, sign_bytes, signature_len, verify_signature,
};
use crate::entropy::{EntropyManager, entropy_value};
use crate::hardware::{
    HardwareProfile, ProfileModel, copy_profile, degenerate, derive_fingerprint,
    fingerprint_of, verify_profile,
};

verus! {

/// Temporal and capacity policy of a runtime. Durations are in nanoseconds.
#[derive(Debug, Clone, Copy)]
pub struct Config {
    /// How far into the future a timestamp may lie and still be accepted.
    pub skew_tolerance: u64,
    /// How far into the past a timestamp may lie and still be accepted.
    pub max_age: u64,
    /// Width of a time bucket of the time-variant hash; must be positive.
    pub time_bucket_width: u64,
    /// Largest number of admitted signals the replay cache will hold at once.
    pub replay_cache_capacity: usize,
}

/// A configuration the runtime can operate under.
pub open spec fn config_valid(c: Config) -> bool {
    c.time_bucket_width > 0
}

impl Default for Config {
    /// Default policy: five seconds of skew tolerance, one minute of maximum
    /// age, one-second buckets, and a cache of 65536 admitted signals.
    fn default() -> (r: Self)
        ensures
            r.skew_tolerance == 5_000_000_000u64,
            r.max_age == 60_000_000_000u64,
            r.time_bucket_width == 1_000_000_000u64,
            r.replay_cache_capacity == 65536usize,
    {
        Config {
            skew_tolerance: 5_000_000_000,
            max_age: 60_000_000_000,
            time_bucket_width: 1_000_000_000,
            replay_cache_capacity: 65536,
        }
    }
}

/// Outcome of validating a signal: acceptance, or the specific reason the
/// signal was denied, so a caller can assert on why, never a bare boolean.
#[derive(Debug, Clone, Copy, PartialEq, Eq, Structural)]
pub enum ValidationOutcome {
    /// Every check passed; the signal is admitted and recorded.
    Accepted,
    /// The timestamp lies further in the past than the maximum age.
    ExpiredSignal,
    /// The timestamp lies further in the future than the skew tolerance.
    FutureTimestamp,
    /// The runtime's hardware binding failed re-verification.
    HardwareMismatch,
    /// The signature does not match the recomputed bound message.
    SignatureInvalid,
    /// The signal's `(entropy_state, timestamp)` pair was already admitted.
    ReplayDetected,
    /// The signature does not even have the shape a signal over this payload
    /// would carry (its length is wrong). A forgery of the wrong length is
    /// reported here, before any signature comparison, rather than as
    /// `SignatureInvalid`.
    MalformedInput,
    /// An operational fault, not a security rejection: the replay cache is at
    /// capacity, so the signal cannot be admitted without reopening a replay
    /// hole.
    CryptoUnavailable,
}

/// A single attestation unit: payload bytes bound to a timestamp, an entropy
/// value and (through the signature) the issuing hardware's fingerprint.
pub struct SignalState {
    pub timestamp: u64,
    pub entropy_state: u64,
    pub data: Vec<u8>,
    pub signature: Vec<u8>,
}

/// Mathematical image of a signal.
#[verifier::ext_equal]
pub struct SignalModel {
    pub timestamp: u64,
    pub entropy_state: u64,
    pub data: Seq<u8>,
    pub signature: Seq<u8>,
}

impl View for SignalState {
    type V = SignalModel;

    open spec fn view(&self) -> SignalModel {
        SignalModel {
            timestamp: self.timestamp,
            entropy_state: self.entropy_state,
            data: self.data@,
            signature: self.signature@,
        }
    }
}

impl SignalState {
    /// Copies a signal field for field.
    pub fn duplicate(&self) -> (r: Self)
        ensures
            r@ == self@,
    {
        SignalState {
            timestamp: self.timestamp,
            entropy_state: self.entropy_state,
            data: crate::hardware::copy_bytes(&self.data),
            signature: crate::hardware::copy_bytes(&self.signature),
        }
    }
}

/// Mathematical image of a runtime.
#[verifier::ext_equal]
pub struct RuntimeModel {
    pub master_secret: u64,
    pub entropy_seed: u64,
    pub entropy_counter: u64,
    pub identifiers: Seq<u8>,
    pub profile: ProfileModel,
    pub cache: Seq<(u64, u64)>,
    pub config: Config,
}

/// A well-formed runtime: its profile is the non-degenerate fingerprint of
/// its own identifiers with set-like feature and capability collections, and
/// its configuration is valid.
pub open spec fn wf(m: RuntimeModel) -> bool {
    &&& m.profile.fingerprint == fingerprint_of(m.identifiers)
    &&& !degenerate(m.profile)
    &&& crate::hardware::profile_sets_unique(m.profile)
    &&& config_valid(m.config)
}

/// The hardware check of validation: the runtime's own binding still
/// re-verifies against its identifiers.
pub open spec fn hw_ok(m: RuntimeModel) -> bool {
    binding_ok(m, m.profile)
}

/// What the hardware-binding check accepts: a non-degenerate profile whose
/// fingerprint is the one recomputed from the runtime's identifiers.
pub open spec fn binding_ok(m: RuntimeModel, p: ProfileModel) -> bool {
    !degenerate(p) && p.fingerprint == fingerprint_of(m.identifiers)
}

/// Key effective for a signal with the given timestamp under this runtime.
pub open spec fn key_for(m: RuntimeModel, ts: u64) -> u64 {
    derive_key(m.master_secret, bucket(ts, m.config.time_bucket_width))
}

/// The signature the genuine generation path produces over the given fields
/// under this runtime.
pub open spec fn signature_for(m: RuntimeModel, ts: u64, entropy: u64, data: Seq<u8>) -> Seq<u8> {
    sign_bytes(key_for(m, ts), bound_message(ts, entropy, data, m.profile.fingerprint))
}

/// Whether a replay-cache entry is still inside the temporal acceptance
/// window; entries are evicted only once this no longer holds, never before.
pub open spec fn entry_live(entry: (u64, u64), now: u64, max_age: u64) -> bool {
    entry.1 + max_age >= now
}

/// The replay cache after evicting every entry that has aged out of the
/// temporal window, in order.
pub open spec fn evict_spec(cache: Seq<(u64, u64)>, now: u64, max_age: u64) -> Seq<(u64, u64)>
    decreases cache.len(),
{
    if cache.len() == 0 {
        Seq::empty()
    } else {
        let rest = evict_spec(cache.drop_last(), now, max_age);
        if entry_live(cache.last(), now, max_age) {
            rest.push(cache.last())
        } else {
            rest
        }
    }
}

/// Eviction never grows the cache, keeps exactly the live entries, and keeps
/// every entry still inside the temporal window.
pub proof fn lemma_evict_spec_properties(cache: Seq<(u64, u64)>, now: u64, max_age: u64)
    ensures
        evict_spec(cache, now, max_age).len() <= cache.len(),
        forall|p: (u64, u64)|
            evict_spec(cache, now, max_age).contains(p) <==> (cache.contains(p) && entry_live(
                p,
                now,
                max_age,
            )),
    decreases cache.len(),
{
    let ev = evict_spec(cache, now, max_age);
    if cache.len() == 0 {
        assert(forall|p: (u64, u64)| !cache.contains(p));
        assert(forall|p: (u64, u64)| !ev.contains(p));
    } else {
        let pre = cache.drop_last();
        let l = cache.last();
        lemma_evict_spec_properties(pre, now, max_age);
        let evp = evict_spec(pre, now, max_age);
        assert forall|p: (u64, u64)| cache.contains(p) implies (pre.contains(p) || p == l) by {
            let i = choose|i: int| 0 <= i < cache.len() && cache[i] == p;
            if i < cache.len() - 1 {
                assert(pre[i] == p);
            }
        }
        assert forall|p: (u64, u64)| pre.contains(p) implies cache.contains(p) by {
            let i = choose|i: int| 0 <= i < pre.len() && pre[i] == p;
            assert(cache[i] == p);
        }
        assert(cache[cache.len() - 1] == l);
        assert(cache.contains(l));
        if entry_live(l, now, max_age) {
            assert forall|p: (u64, u64)| ev.contains(p) implies (evp.contains(p) || p == l) by {
                let i = choose|i: int| 0 <= i < ev.len() && ev[i] == p;
                if i < ev.len() - 1 {
                    assert(evp[i] == p);
                }
            }
            assert forall|p: (u64, u64)| evp.contains(p) implies ev.contains(p) by {
                let i = choose|i: int| 0 <= i < evp.len() && evp[i] == p;
                assert(ev[i] == p);
            }
            assert(ev[ev.len() - 1] == l);
            assert(ev.contains(l));
        }
    }
}

/// The signal the genuine generation path produces from a runtime state, a
/// payload and a generation time.
pub open spec fn generated_signal(m: RuntimeModel, payload: Seq<u8>, t: u64) -> SignalModel {
    let e = entropy_value(m.entropy_seed, m.entropy_counter + 1);
    SignalModel {
        timestamp: t,
        entropy_state: e,
        data: payload,
        signature: signature_for(m, t, e, payload),
    }
}

/// The runtime state after one generation: only the entropy counter advances.
pub open spec fn after_generate(m: RuntimeModel) -> RuntimeModel {
    RuntimeModel { entropy_counter: (m.entropy_counter + 1) as u64, ..m }
}

/// The complete admission decision over a signal at time `now`, in check
/// order: temporal window, hardware binding, structural shape, signature,
/// replay, capacity.
pub open spec fn spec_outcome(m: RuntimeModel, s: SignalModel, now: u64) -> ValidationOutcome {
    let live = evict_spec(m.cache, now, m.config.max_age);
    if s.timestamp > now + m.config.skew_tolerance {
        ValidationOutcome::FutureTimestamp
    } else if s.timestamp + m.config.max_age < now {
        ValidationOutcome::ExpiredSignal
    } else if !hw_ok(m) {
        ValidationOutcome::HardwareMismatch
    } else if s.signature.len() != signature_len(s.data.len()) {
        ValidationOutcome::MalformedInput
    } else if s.signature != signature_for(m, s.timestamp, s.entropy_state, s.data) {
        ValidationOutcome::SignatureInvalid
    } else if live.contains((s.entropy_state, s.timestamp)) {
        ValidationOutcome::ReplayDetected
    } else if live.len() >= m.config.replay_cache_capacity {
        ValidationOutcome::CryptoUnavailable
    } else {
        ValidationOutcome::Accepted
    }
}

/// The replay cache after one validation: expired entries evicted, and the
/// signal's pair recorded exactly when the signal was accepted.
pub open spec fn spec_cache_after(m: RuntimeModel, s: SignalModel, now: u64) -> Seq<(u64, u64)> {
    let live = evict_spec(m.cache, now, m.config.max_age);
    if spec_outcome(m, s, now) == ValidationOutcome::Accepted {
        live.push((s.entropy_state, s.timestamp))
    } else {
        live
    }
}

/// The runtime state after one validation.
pub open spec fn after_validate(m: RuntimeModel, s: SignalModel, now: u64) -> RuntimeModel {
    RuntimeModel { cache: spec_cache_after(m, s, now), ..m }
}

/// Keeps exactly the live entries of a replay cache, in order.
fn filter_live(cache: &Vec<(u64, u64)>, now: u64, max_age: u64) -> (r: Vec<(u64, u64)>)
    ensures
        r@ == evict_spec(cache@, now, max_age),
{
    let mut kept: Vec<(u64, u64)> = Vec::new();
    let mut i: usize = 0;
    while i < cache.len()
        invariant
            i <= cache@.len(),
            kept@ == evict_spec(cache@.subrange(0, i as int), now, max_age),
        decreases cache@.len() - i,
    {
        let entry: (u64, u64) = cache[i];
        proof {
            assert(cache@.subrange(0, i + 1 as int).drop_last() =~= cache@.subrange(0, i as int));
            assert(cache@.subrange(0, i + 1 as int).last() == cache@[i as int]);
        }
        if entry.1 as u128 + max_age as u128 >= now as u128 {
            kept.push(entry);
        }
        i = i + 1;
    }
    proof {
        assert(cache@.subrange(0, cache@.len() as int) =~= cache@);
    }
    kept
}

/// The signal runtime. All shared mutable state (the entropy counter and the
/// replay cache) sits behind `&mut self`, so checks and cache insertion form
/// one exclusive critical section per call.
pub struct SignalRuntime {
    master_secret: u64,
    entropy: EntropyManager,
    identifiers: Vec<u8>,
    profile: HardwareProfile,
    replay_cache: Vec<(u64, u64)>,
    config: Config,
}

impl View for SignalRuntime {
    type V = RuntimeModel;

    closed spec fn view(&self) -> RuntimeModel {
        RuntimeModel {
            master_secret: self.master_secret,
            entropy_seed: self.entropy.seed(),
            entropy_counter: self.entropy.counter(),
            identifiers: self.identifiers@,
            profile: self.profile@,
            cache: self.replay_cache@,
            config: self.config,
        }
    }
}

impl SignalRuntime {
    /// Enrolls a runtime: derives the hardware fingerprint from the given
    /// stable identifiers, draws fresh key and entropy material, and starts
    /// with an empty replay cache. Whatever secrets were drawn, every stated
    /// field of the resulting state is pinned down.
    pub fn new(
        identifiers: Vec<u8>,
        features: Vec<u64>,
        capabilities: Vec<(u64, u64)>,
        config: Config,
    ) -> (r: Self)
        requires
            config_valid(config),
        ensures
            r@.identifiers == identifiers@,
            r@.profile.fingerprint == fingerprint_of(identifiers@),
            r@.profile.features == features@,
            r@.profile.capabilities == capabilities@,
            r@.entropy_counter == 0,
            r@.cache == Seq::<(u64, u64)>::empty(),
            r@.config == config,
    {
        let fingerprint: Vec<u8> = derive_fingerprint(&identifiers);
        let profile = HardwareProfile { fingerprint, features, capabilities };
        let r = SignalRuntime {
            master_secret: rand::random::<u64>(),
            entropy: EntropyManager::new(),
            identifiers,
            profile,
            replay_cache: Vec::new(),
            config,
        };
        proof {
            assert(r@.cache =~= Seq::<(u64, u64)>::empty());
        }
        r
    }

    /// The temporal and capacity policy this runtime operates under.
    pub fn config(&self) -> (c: Config)
        ensures
            c == self@.config,
    {
        self.config
    }

    /// The profile of the issuing hardware instance, as enrolled.
    pub fn current_hardware_profile(&self) -> (p: HardwareProfile)
        ensures
            p@ == self@.profile,
    {
        copy_profile(&self.profile)
    }

    /// Standalone hardware-binding check: the profile under test must be
    /// non-degenerate and its fingerprint must be the one recomputed from
    /// this runtime's identifiers.
    pub fn validate_hardware_binding(&self, p: &HardwareProfile) -> (r: bool)
        ensures
            r == binding_ok(self@, p@),
    {
        let expected: Vec<u8> = derive_fingerprint(&self.identifiers);
        verify_profile(&expected, p)
    }

    /// Evicts every replay-cache entry that has aged out of the temporal
    /// acceptance window. An entry still inside the window is never evicted,
    /// so eviction can never reopen a replay hole.
    pub fn evict_expired(&mut self, now: u64)
        ensures
            final(self)@ == (RuntimeModel {
                cache: evict_spec(old(self)@.cache, now, old(self)@.config.max_age),
                ..old(self)@
            }),
    {
        let kept: Vec<(u64, u64)> = filter_live(&self.replay_cache, now, self.config.max_age);
        self.replay_cache = kept;
    }

    /// Whether the replay cache holds the given `(entropy_state, timestamp)`
    /// pair.
    fn cache_contains(&self, entropy_state: u64, timestamp: u64) -> (r: bool)
        ensures
            r == self@.cache.contains((entropy_state, timestamp)),
    {
        let mut i: usize = 0;
        while i < self.replay_cache.len()
            invariant
                i <= self@.cache.len(),
                self@.cache == self.replay_cache@,
                forall|j: int| 0 <= j < i ==> self@.cache[j] != (entropy_state, timestamp),
            decreases self@.cache.len() - i,
        {
            let entry: (u64, u64) = self.replay_cache[i];
            proof {
                assert(self@.cache[i as int] == (entry.0, entry.1));
            }
            if entry.0 == entropy_state && entry.1 == timestamp {
                assert(self@.cache[i as int] == (entropy_state, timestamp));
                assert(self@.cache.contains((entropy_state, timestamp)));
                return true;
            }
            i = i + 1;
        }
        proof {
            if self@.cache.contains((entropy_state, timestamp)) {
                let j = choose|j: int|
                    0 <= j < self@.cache.len() && self@.cache[j] == (entropy_state, timestamp);
                assert(self@.cache[j] != (entropy_state, timestamp));
            }
        }
        false
    }

    /// Generates a signal over `payload` at time `now`: pulls the next
    /// entropy value, binds timestamp, entropy, payload and the hardware
    /// fingerprint into one message, and signs it under the key of `now`'s
    /// time bucket. The runtime changes only by the advanced entropy counter;
    /// no partially constructed signal can ever be observed.
    pub fn generate_signal(&mut self, payload: Vec<u8>, now: u64) -> (s: SignalState)
        requires
            wf(old(self)@),
            old(self)@.entropy_counter < u64::MAX,
        ensures
            s@ == generated_signal(old(self)@, payload@, now),
            final(self)@ == after_generate(old(self)@),
    {
        let entropy_state: u64 = self.entropy.next_entropy();
        let message: Vec<u8> = encode_bound_message(
            now,
            entropy_state,
            &payload,
            &self.profile.fingerprint,
        );
        let key: u64 = derive_key_for(
            self.master_secret,
            bucket_of(now, self.config.time_bucket_width),
        );
        let signature: Vec<u8> = sign(key, &message);
        SignalState { timestamp: now, entropy_state, data: payload, signature }
    }

    /// Validates a signal at time `now`: evicts aged replay entries, then
    /// applies the complete admission decision `spec_outcome`, recording the
    /// signal's `(entropy_state, timestamp)` pair exactly when it is
    /// accepted. All checks and the insertion happen under one exclusive
    /// borrow, so of concurrent validations of one captured signal at most
    /// one can be accepted.
    pub fn validate_signal(&mut self, signal: &SignalState, now: u64) -> (r: ValidationOutcome)
        requires
            config_valid(old(self)@.config),
        ensures
            r == spec_outcome(old(self)@, signal@, now),
            final(self)@ == after_validate(old(self)@, signal@, now),
    {
        self.evict_expired(now);
        let ghost m = old(self)@;
        if signal.timestamp as u128 > now as u128 + self.config.skew_tolerance as u128 {
            return ValidationOutcome::FutureTimestamp;
        }
        if (signal.timestamp as u128 + self.config.max_age as u128) < now as u128 {
            return ValidationOutcome::ExpiredSignal;
        }
        let expected_fp: Vec<u8> = derive_fingerprint(&self.identifiers);
        if !verify_profile(&expected_fp, &self.profile) {
            return ValidationOutcome::HardwareMismatch;
        }
        if signal.signature.len() < SIGNATURE_OVERHEAD
            || signal.signature.len() - SIGNATURE_OVERHEAD != signal.data.len() {
            return ValidationOutcome::MalformedInput;
        }
        let message: Vec<u8> = encode_bound_message(
            signal.timestamp,
            signal.entropy_state,
            &signal.data,
            &self.profile.fingerprint,
        );
        let key: u64 = derive_key_for(
            self.master_secret,
            bucket_of(signal.timestamp, self.config.time_bucket_width),
        );
        if !verify_signature(key, &message, &signal.signature) {
            return ValidationOutcome::SignatureInvalid;
        }
        if self.cache_contains(signal.entropy_state, signal.timestamp) {
            return ValidationOutcome::ReplayDetected;
        }
        if self.replay_cache.len() >= self.config.replay_cache_capacity {
            return ValidationOutcome::CryptoUnavailable;
        }
        self.replay_cache.push((signal.entropy_state, signal.timestamp));
        ValidationOutcome::Accepted
    }
}

} // verus!
