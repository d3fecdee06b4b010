//! The engine's security guarantees, stated and proved once over the runtime
//! model: a freshly generated signal is admitted exactly once inside the
//! temporal window; any tampering with the entropy value or the payload of an
//! authentic signal is rejected as a signature failure; stale and future-dated
//! timestamps are rejected as such; degenerate hardware profiles never bind;
//! and crossing a time-bucket boundary between generation and validation does
//! not break the cryptographic check.

use vstd::prelude::*;

use crate::{WORD_MODULUS, lemma_wrap_add_nonzero, spec_wrap_add};
use crate::encoding::{FINGERPRINT_LEN, bound_message, lemma_bound_message_injective};
use crate::crypto::{lemma_sign_bytes_injective, sign_bytes, signature_len};
use crate::entropy::entropy_value;
use crate::hardware::{ProfileModel, all_zero, degenerate};
use crate::tvhash::bucket;
use crate::runtime::{
    RuntimeModel, SignalModel, ValidationOutcome, after_generate, after_validate, evict_spec,
    generated_signal, hw_ok, key_for, lemma_evict_spec_properties, signature_for, spec_cache_after,
    spec_outcome, wf,
};

verus! {

/// A signal as the genuine generation path emitted it under runtime state
/// `m`: its signature is exactly the one generation computes over its fields.
pub open spec fn authentic(m: RuntimeModel, s: SignalModel) -> bool {
    s.signature == signature_for(m, s.timestamp, s.entropy_state, s.data)
}

/// A validation time inside the temporal acceptance window of a signal's
/// timestamp.
pub open spec fn within_window(m: RuntimeModel, ts: u64, now: u64) -> bool {
    ts <= now + m.config.skew_tolerance && now <= ts + m.config.max_age
}

/// An authentic signal's signature has the shape of a signature over its
/// payload.
pub proof fn lemma_authentic_signature_len(m: RuntimeModel, s: SignalModel)
    requires
        wf(m),
        authentic(m, s),
    ensures
        s.signature.len() == signature_len(s.data.len()),
{
    assert(m.profile.fingerprint.len() == FINGERPRINT_LEN);
}

/// A signal generated over any payload at any time `t` is accepted when
/// validated at any time `v` inside the temporal window — provided the replay
/// cache does not already hold the exact `(entropy value, t)` pair the fresh
/// signal will carry, and has room for one more admission.
pub proof fn lemma_generate_then_validate_accepted(
    m: RuntimeModel,
    payload: Seq<u8>,
    t: u64,
    v: u64,
)
    requires
        wf(m),
        m.entropy_counter < u64::MAX,
        t <= v + m.config.skew_tolerance,
        v <= t + m.config.max_age,
        !m.cache.contains((entropy_value(m.entropy_seed, m.entropy_counter + 1), t)),
        m.cache.len() < m.config.replay_cache_capacity,
    ensures
        spec_outcome(after_generate(m), generated_signal(m, payload, t), v)
            == ValidationOutcome::Accepted,
{
    let s = generated_signal(m, payload, t);
    let m1 = after_generate(m);
    assert(hw_ok(m1));
    assert(m.profile.fingerprint.len() == FINGERPRINT_LEN);
    assert(s.signature.len() == signature_len(s.data.len()));
    assert(signature_for(m1, t, s.entropy_state, payload)
        == signature_for(m, t, s.entropy_state, payload));
    lemma_evict_spec_properties(m1.cache, v, m1.config.max_age);
    assert(!evict_spec(m1.cache, v, m1.config.max_age).contains((s.entropy_state, s.timestamp)));
    assert(evict_spec(m1.cache, v, m1.config.max_age).len() < m1.config.replay_cache_capacity);
}

/// Once a signal has been accepted, validating the identical signal again at
/// any later time still inside its temporal window yields a replay detection:
/// of repeated validations of one captured signal, only the first can
/// succeed.
pub proof fn lemma_second_validation_replay_detected(
    m: RuntimeModel,
    s: SignalModel,
    v: u64,
    v2: u64,
)
    requires
        spec_outcome(m, s, v) == ValidationOutcome::Accepted,
        within_window(m, s.timestamp, v2),
    ensures
        spec_outcome(after_validate(m, s, v), s, v2) == ValidationOutcome::ReplayDetected,
{
    let m1 = after_validate(m, s, v);
    let pair = (s.entropy_state, s.timestamp);
    let c1 = spec_cache_after(m, s, v);
    assert(c1 == evict_spec(m.cache, v, m.config.max_age).push(pair));
    assert(c1[c1.len() - 1] == pair);
    assert(c1.contains(pair));
    lemma_evict_spec_properties(c1, v2, m1.config.max_age);
    assert(evict_spec(c1, v2, m1.config.max_age).contains(pair));
    assert(hw_ok(m1));
    assert(signature_for(m1, s.timestamp, s.entropy_state, s.data)
        == signature_for(m, s.timestamp, s.entropy_state, s.data));
}

/// A fresh signal is admitted exactly once: generated at `t` and validated at
/// `v` inside the window it is accepted, and validating the identical signal
/// a second time at any `v2` still inside the window is a replay detection.
pub proof fn lemma_admitted_exactly_once(
    m: RuntimeModel,
    payload: Seq<u8>,
    t: u64,
    v: u64,
    v2: u64,
)
    requires
        wf(m),
        m.entropy_counter < u64::MAX,
        t <= v + m.config.skew_tolerance,
        v <= t + m.config.max_age,
        t <= v2 + m.config.skew_tolerance,
        v2 <= t + m.config.max_age,
        !m.cache.contains((entropy_value(m.entropy_seed, m.entropy_counter + 1), t)),
        m.cache.len() < m.config.replay_cache_capacity,
    ensures
        spec_outcome(after_generate(m), generated_signal(m, payload, t), v)
            == ValidationOutcome::Accepted,
        spec_outcome(
            after_validate(after_generate(m), generated_signal(m, payload, t), v),
            generated_signal(m, payload, t),
            v2,
        ) == ValidationOutcome::ReplayDetected,
{
    lemma_generate_then_validate_accepted(m, payload, t, v);
    lemma_second_validation_replay_detected(after_generate(m), generated_signal(m, payload, t), v, v2);
}

/// Incrementing an authentic signal's entropy value by any non-zero amount
/// (wrapping) before validation yields a signature failure whenever the
/// signal is inside its temporal window — never an acceptance.
pub proof fn lemma_entropy_tamper_rejected(m: RuntimeModel, s: SignalModel, now: u64, delta: u64)
    requires
        wf(m),
        authentic(m, s),
        s.data.len() < WORD_MODULUS,
        delta != 0,
        within_window(m, s.timestamp, now),
    ensures
        spec_outcome(
            m,
            (SignalModel { entropy_state: spec_wrap_add(s.entropy_state, delta), ..s }),
            now,
        ) == ValidationOutcome::SignatureInvalid,
{
    let e2 = spec_wrap_add(s.entropy_state, delta);
    lemma_wrap_add_nonzero(s.entropy_state, delta);
    let fp = m.profile.fingerprint;
    assert(fp.len() == FINGERPRINT_LEN);
    let msg1 = bound_message(s.timestamp, s.entropy_state, s.data, fp);
    let msg2 = bound_message(s.timestamp, e2, s.data, fp);
    if msg1 == msg2 {
        lemma_bound_message_injective(
            s.timestamp, s.entropy_state, s.data, fp,
            s.timestamp, e2, s.data, fp,
        );
    }
    lemma_sign_bytes_injective(key_for(m, s.timestamp), msg1, msg2);
    lemma_authentic_signature_len(m, s);
}

/// Replacing an authentic signal's payload with any different payload while
/// keeping timestamp, entropy value and signature yields a signature failure
/// (same-length payloads) or a shape failure (different length) whenever the
/// signal is inside its temporal window — never an acceptance.
pub proof fn lemma_payload_tamper_rejected(
    m: RuntimeModel,
    s: SignalModel,
    now: u64,
    data2: Seq<u8>,
)
    requires
        wf(m),
        authentic(m, s),
        s.data.len() < WORD_MODULUS,
        data2.len() < WORD_MODULUS,
        data2 != s.data,
        within_window(m, s.timestamp, now),
    ensures
        data2.len() == s.data.len() ==> spec_outcome(m, (SignalModel { data: data2, ..s }), now)
            == ValidationOutcome::SignatureInvalid,
        data2.len() != s.data.len() ==> spec_outcome(m, (SignalModel { data: data2, ..s }), now)
            == ValidationOutcome::MalformedInput,
        spec_outcome(m, (SignalModel { data: data2, ..s }), now) != ValidationOutcome::Accepted,
{
    let fp = m.profile.fingerprint;
    assert(fp.len() == FINGERPRINT_LEN);
    lemma_authentic_signature_len(m, s);
    if data2.len() == s.data.len() {
        let msg1 = bound_message(s.timestamp, s.entropy_state, s.data, fp);
        let msg2 = bound_message(s.timestamp, s.entropy_state, data2, fp);
        if msg1 == msg2 {
            lemma_bound_message_injective(
                s.timestamp, s.entropy_state, s.data, fp,
                s.timestamp, s.entropy_state, data2, fp,
            );
        }
        lemma_sign_bytes_injective(key_for(m, s.timestamp), msg1, msg2);
    }
}

/// A copy of an authentic signal whose timestamp or entropy value (or both)
/// was changed, keeping payload and signature, is rejected whenever the
/// changed timestamp still falls in the signal's own time bucket: as
/// future-dated when the shift exceeds the skew tolerance, and otherwise as a
/// signature failure — never an acceptance. The validating state may differ
/// from the generating one in entropy counter and replay cache.
pub proof fn lemma_shifted_copy_rejected(
    m: RuntimeModel,
    mv: RuntimeModel,
    s: SignalModel,
    c: SignalModel,
    now: u64,
)
    requires
        wf(m),
        authentic(m, s),
        s.data.len() < WORD_MODULUS,
        mv.master_secret == m.master_secret,
        mv.profile == m.profile,
        mv.identifiers == m.identifiers,
        mv.config == m.config,
        c.data == s.data,
        c.signature == s.signature,
        c.timestamp != s.timestamp || c.entropy_state != s.entropy_state,
        bucket(c.timestamp, m.config.time_bucket_width)
            == bucket(s.timestamp, m.config.time_bucket_width),
        c.timestamp + m.config.max_age >= now,
    ensures
        c.timestamp > now + m.config.skew_tolerance ==> spec_outcome(mv, c, now)
            == ValidationOutcome::FutureTimestamp,
        c.timestamp <= now + m.config.skew_tolerance ==> spec_outcome(mv, c, now)
            == ValidationOutcome::SignatureInvalid,
        spec_outcome(mv, c, now) != ValidationOutcome::Accepted,
{
    let fp = m.profile.fingerprint;
    assert(fp.len() == FINGERPRINT_LEN);
    lemma_authentic_signature_len(m, s);
    if c.timestamp <= now + m.config.skew_tolerance {
        assert(hw_ok(mv));
        assert(key_for(mv, c.timestamp) == key_for(m, s.timestamp));
        let msg1 = bound_message(s.timestamp, s.entropy_state, s.data, fp);
        let msg2 = bound_message(c.timestamp, c.entropy_state, c.data, fp);
        if msg1 == msg2 {
            lemma_bound_message_injective(
                s.timestamp, s.entropy_state, s.data, fp,
                c.timestamp, c.entropy_state, c.data, fp,
            );
        }
        lemma_sign_bytes_injective(key_for(m, s.timestamp), msg1, msg2);
    }
}

/// A signal whose timestamp lies further in the past than the maximum age is
/// rejected as expired, whatever its other fields.
pub proof fn lemma_expired_rejected(m: RuntimeModel, s: SignalModel, now: u64)
    requires
        s.timestamp + m.config.max_age < now,
    ensures
        spec_outcome(m, s, now) == ValidationOutcome::ExpiredSignal,
{
}

/// A signal whose timestamp lies further in the future than the skew
/// tolerance is rejected as future-dated, whatever its other fields.
pub proof fn lemma_future_rejected(m: RuntimeModel, s: SignalModel, now: u64)
    requires
        s.timestamp > now + m.config.skew_tolerance,
    ensures
        spec_outcome(m, s, now) == ValidationOutcome::FutureTimestamp,
{
}

/// A profile with an all-zero fingerprint and empty feature and capability
/// sets never passes the hardware-binding check, whatever fingerprint is
/// expected and so whatever the configuration.
pub proof fn lemma_degenerate_binding_rejected(expected_fingerprint: Seq<u8>, p: ProfileModel)
    requires
        all_zero(p.fingerprint),
        p.features.len() == 0,
        p.capabilities.len() == 0,
    ensures
        degenerate(p),
        !(!degenerate(p) && p.fingerprint == expected_fingerprint),
{
}

/// Crossing a time-bucket boundary between generation and validation does not
/// break the cryptographic check: the signature is checked under the bucket
/// key of the signal's own timestamp, so a signal generated just before a
/// boundary and validated just after it is still accepted.
pub proof fn lemma_bucket_boundary_tolerated(m: RuntimeModel, payload: Seq<u8>, t: u64, v: u64)
    requires
        wf(m),
        m.entropy_counter < u64::MAX,
        t <= v + m.config.skew_tolerance,
        v <= t + m.config.max_age,
        bucket(t, m.config.time_bucket_width) != bucket(v, m.config.time_bucket_width),
        !m.cache.contains((entropy_value(m.entropy_seed, m.entropy_counter + 1), t)),
        m.cache.len() < m.config.replay_cache_capacity,
    ensures
        spec_outcome(after_generate(m), generated_signal(m, payload, t), v)
            == ValidationOutcome::Accepted,
{
    lemma_generate_then_validate_accepted(m, payload, t, v);
}

} // verus!
