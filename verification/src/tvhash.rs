//! Time-variant hash engine: coarse time buckets, per-bucket key derivation,
//! and the keyed byte stream the signature scheme and the fingerprint digest
//! are built from. The effective key of a digest is derived by mixing a
//! long-term secret with the time bucket of the timestamp under digest, so
//! digests over identical content differ across buckets.

use vstd::prelude::*;

use crate::{mix, mix_step};

verus! {

/// Initial tweak of the keyed byte stream.
pub const STREAM_INIT: u64 = 0x1234_5678_9ABC_DEF1;

/// Per-step tweak of the keyed byte stream.
pub const STREAM_STEP: u64 = 0x0FED_CBA9_8765_4321;

/// Initial accumulator of the absorbing digest.
pub const ABSORB_INIT: u64 = 0xC0DE_D00D_FEED_F00D;

/// Coarse time bucket that a timestamp falls into, for a bucket width in the
/// same unit as the timestamp. A zero width puts every timestamp in bucket 0.
pub open spec fn bucket(ts: u64, width: u64) -> u64 {
    (ts as int / width as int) as u64
}

/// Executable counterpart of `bucket`.
pub fn bucket_of(ts: u64, width: u64) -> (r: u64)
    requires
        width > 0,
    ensures
        r == bucket(ts, width),
{
    ts / width
}

/// Time variance of the derived key: distinct time buckets derive distinct
/// keys from one long-term secret.
pub proof fn lemma_derive_key_time_variant(master_secret: u64, b1: u64, b2: u64)
    requires
        b1 != b2,
    ensures
        derive_key(master_secret, b1) != derive_key(master_secret, b2),
{
    let base: int = master_secret * (crate::MIX_MULT as int) + crate::MIX_INC;
    if b1 < b2 {
        crate::lemma_mod_window_distinct(base + b1, base + b2);
    } else {
        crate::lemma_mod_window_distinct(base + b2, base + b1);
    }
}

/// A timestamp moved forward by less than the distance to the next bucket
/// boundary stays in its bucket.
pub proof fn lemma_same_bucket(t: u64, d: u64, width: u64)
    requires
        width > 0,
        t + d <= u64::MAX,
        t % width + d < width,
    ensures
        bucket((t + d) as u64, width) == bucket(t, width),
{
    let w = width as int;
    vstd::arithmetic::div_mod::lemma_fundamental_div_mod(t as int, w);
    let q = t as int / w;
    let r = (t as int) % w;
    assert(w * q == q * w) by (nonlinear_arith);
    assert(t + d == q * w + (r + d));
    vstd::arithmetic::div_mod::lemma_fundamental_div_mod_converse_div(t + d, w, q, r + d);
}

/// Key effective in one time bucket: the long-term secret mixed with the
/// bucket number.
pub open spec fn derive_key(master_secret: u64, bucket_id: u64) -> u64 {
    mix(master_secret, bucket_id)
}

/// Executable counterpart of `derive_key`.
pub fn derive_key_for(master_secret: u64, bucket_id: u64) -> (r: u64)
    ensures
        r == derive_key(master_secret, bucket_id),
{
    mix_step(master_secret, bucket_id)
}

/// Internal state of the keyed byte stream after `i` steps.
pub open spec fn stream_state(key: u64, i: nat) -> u64
    decreases i,
{
    if i == 0 {
        mix(key, STREAM_INIT)
    } else {
        mix(stream_state(key, (i - 1) as nat), STREAM_STEP)
    }
}

/// Byte `i` of the keyed byte stream under `key`.
pub open spec fn stream_byte(key: u64, i: nat) -> u8 {
    (stream_state(key, i) % 256) as u8
}

/// The first `n` bytes of the keyed byte stream under `key`.
pub fn keystream(key: u64, n: usize) -> (r: Vec<u8>)
    ensures
        r@.len() == n,
        forall|i: int| 0 <= i < n ==> r@[i] == stream_byte(key, i as nat),
{
    let mut out: Vec<u8> = Vec::new();
    let mut state: u64 = mix_step(key, STREAM_INIT);
    let mut i: usize = 0;
    while i < n
        invariant
            i <= n,
            out@.len() == i,
            state == stream_state(key, i as nat),
            forall|j: int| 0 <= j < i ==> out@[j] == stream_byte(key, j as nat),
        decreases n - i,
    {
        out.push((state % 256) as u8);
        state = mix_step(state, STREAM_STEP);
        i = i + 1;
    }
    out
}

/// Digest accumulator absorbed over a byte sequence from a starting state,
/// one mixing step per byte.
pub open spec fn absorb_from(acc: u64, data: Seq<u8>) -> u64
    decreases data.len(),
{
    if data.len() == 0 {
        acc
    } else {
        mix(absorb_from(acc, data.drop_last()), data.last() as u64)
    }
}

/// Digest accumulator absorbed over a byte sequence from the fixed initial
/// state, as the fingerprint path uses it.
pub open spec fn absorb(data: Seq<u8>) -> u64 {
    absorb_from(ABSORB_INIT, data)
}

/// Executable counterpart of `absorb_from`.
pub fn absorb_bytes_from(init: u64, data: &Vec<u8>) -> (r: u64)
    ensures
        r == absorb_from(init, data@),
{
    let mut acc: u64 = init;
    let mut i: usize = 0;
    while i < data.len()
        invariant
            i <= data@.len(),
            acc == absorb_from(init, data@.subrange(0, i as int)),
        decreases data@.len() - i,
    {
        proof {
            assert(data@.subrange(0, i + 1 as int).drop_last() =~= data@.subrange(0, i as int));
            assert(data@.subrange(0, i + 1 as int).last() == data@[i as int]);
        }
        acc = mix_step(acc, data[i] as u64);
        i = i + 1;
    }
    proof {
        assert(data@.subrange(0, data@.len() as int) =~= data@);
    }
    acc
}

/// Executable counterpart of `absorb`.
pub fn absorb_bytes(data: &Vec<u8>) -> (r: u64)
    ensures
        r == absorb(data@),
{
    absorb_bytes_from(ABSORB_INIT, data)
}

/// Tweak separating the keyed digest's starting state from other uses of the
/// mixing permutation.
pub const DIGEST_TWEAK: u64 = 0x7D16_3E57_A5A5_D16E;

/// Width of the time-variant keyed digest in bytes.
pub const DIGEST_LEN: usize = 32;

/// The time-variant keyed digest: the bucket key and every payload byte
/// absorbed into the mixing permutation, then expanded to a fixed 32-byte
/// digest. The width does not
/// depend on the payload; the empty payload digests to 32 key-dependent
/// bytes, so digests under distinct bucket keys can differ on any payload.
pub open spec fn tv_digest(key: u64, data: Seq<u8>) -> Seq<u8> {
    Seq::new(
        DIGEST_LEN as nat,
        |i: int| stream_byte(absorb_from(mix(key, DIGEST_TWEAK), data), i as nat),
    )
}

/// Computes the time-variant keyed digest; exact executable counterpart of
/// `tv_digest`.
pub fn digest(key: u64, data: &Vec<u8>) -> (r: Vec<u8>)
    ensures
        r@ == tv_digest(key, data@),
        r@.len() == DIGEST_LEN,
{
    let start: u64 = mix_step(key, DIGEST_TWEAK);
    let state: u64 = absorb_bytes_from(start, data);
    let out: Vec<u8> = keystream(state, DIGEST_LEN);
    proof {
        assert(out@ =~= tv_digest(key, data@));
    }
    out
}

} // verus!
