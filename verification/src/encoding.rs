//! The fixed, unambiguous byte encoding of the message that a signal's
//! signature is computed over, and the proof that it is injective: two bound
//! messages are equal only if every bound field is equal. Fields are laid out
//! as little-endian words with a length prefix on the variable-length payload,
//! so no two distinct field tuples share an encoding.

use vstd::prelude::*;

use crate::WORD_MODULUS;

verus! {

/// The eight little-endian bytes of a 64-bit word.
pub open spec fn le8(x: u64) -> Seq<u8> {
    seq![
        (x & 0xff) as u8,
        ((x >> 8) & 0xff) as u8,
        ((x >> 16) & 0xff) as u8,
        ((x >> 24) & 0xff) as u8,
        ((x >> 32) & 0xff) as u8,
        ((x >> 40) & 0xff) as u8,
        ((x >> 48) & 0xff) as u8,
        ((x >> 56) & 0xff) as u8,
    ]
}

/// Each byte lane of a 64-bit word fits in a byte.
pub proof fn lemma_le8_bytes_bounded(x: u64)
    ensures
        x & 0xff <= 0xff,
        (x >> 8) & 0xff <= 0xff,
        (x >> 16) & 0xff <= 0xff,
        (x >> 24) & 0xff <= 0xff,
        (x >> 32) & 0xff <= 0xff,
        (x >> 40) & 0xff <= 0xff,
        (x >> 48) & 0xff <= 0xff,
        (x >> 56) & 0xff <= 0xff,
{
    assert(x & 0xff <= 0xff) by (bit_vector);
    assert((x >> 8) & 0xff <= 0xff) by (bit_vector);
    assert((x >> 16) & 0xff <= 0xff) by (bit_vector);
    assert((x >> 24) & 0xff <= 0xff) by (bit_vector);
    assert((x >> 32) & 0xff <= 0xff) by (bit_vector);
    assert((x >> 40) & 0xff <= 0xff) by (bit_vector);
    assert((x >> 48) & 0xff <= 0xff) by (bit_vector);
    assert((x >> 56) & 0xff <= 0xff) by (bit_vector);
}

/// A 64-bit word is determined by its eight little-endian bytes.
pub proof fn lemma_le8_injective(x: u64, y: u64)
    requires
        le8(x) == le8(y),
    ensures
        x == y,
{
    assert(le8(x)[0] == le8(y)[0]);
    assert(le8(x)[1] == le8(y)[1]);
    assert(le8(x)[2] == le8(y)[2]);
    assert(le8(x)[3] == le8(y)[3]);
    assert(le8(x)[4] == le8(y)[4]);
    assert(le8(x)[5] == le8(y)[5]);
    assert(le8(x)[6] == le8(y)[6]);
    assert(le8(x)[7] == le8(y)[7]);
    assert(x == y) by (bit_vector)
        requires
            (x & 0xff) as u8 == (y & 0xff) as u8,
            ((x >> 8) & 0xff) as u8 == ((y >> 8) & 0xff) as u8,
            ((x >> 16) & 0xff) as u8 == ((y >> 16) & 0xff) as u8,
            ((x >> 24) & 0xff) as u8 == ((y >> 24) & 0xff) as u8,
            ((x >> 32) & 0xff) as u8 == ((y >> 32) & 0xff) as u8,
            ((x >> 40) & 0xff) as u8 == ((y >> 40) & 0xff) as u8,
            ((x >> 48) & 0xff) as u8 == ((y >> 48) & 0xff) as u8,
            ((x >> 56) & 0xff) as u8 == ((y >> 56) & 0xff) as u8,
    ;
}

/// Appends the eight little-endian bytes of `x` to `out`.
pub fn push_le8(out: &mut Vec<u8>, x: u64)
    ensures
        final(out)@ == old(out)@ + le8(x),
{
    proof {
        lemma_le8_bytes_bounded(x);
    }
    out.push((x & 0xff) as u8);
    out.push(((x >> 8) & 0xff) as u8);
    out.push(((x >> 16) & 0xff) as u8);
    out.push(((x >> 24) & 0xff) as u8);
    out.push(((x >> 32) & 0xff) as u8);
    out.push(((x >> 40) & 0xff) as u8);
    out.push(((x >> 48) & 0xff) as u8);
    out.push(((x >> 56) & 0xff) as u8);
    proof {
        assert(out@ =~= old(out)@ + le8(x));
    }
}

/// Width of the fingerprint digest in bytes.
pub const FINGERPRINT_LEN: usize = 32;

/// Number of fixed-width bytes that precede the payload and fingerprint in a
/// bound message: timestamp, entropy value and payload length, 8 bytes each.
pub const BOUND_HEADER_LEN: usize = 24;

/// The message a signal's signature is computed over: timestamp, entropy
/// value and payload length as little-endian words, then the payload bytes,
/// then the 32-byte hardware fingerprint.
pub open spec fn bound_message(ts: u64, entropy: u64, data: Seq<u8>, fp: Seq<u8>) -> Seq<u8> {
    le8(ts) + le8(entropy) + le8(data.len() as u64) + data + fp
}

/// Length of a bound message over a payload of the given length.
pub open spec fn bound_message_len(data_len: nat) -> nat {
    (BOUND_HEADER_LEN + FINGERPRINT_LEN + data_len) as nat
}

/// A bound message determines every field bound into it: the encoding is
/// injective over all tuples with a 32-byte fingerprint and a payload whose
/// length fits in a 64-bit word.
pub proof fn lemma_bound_message_injective(
    ts1: u64, e1: u64, d1: Seq<u8>, fp1: Seq<u8>,
    ts2: u64, e2: u64, d2: Seq<u8>, fp2: Seq<u8>,
)
    requires
        fp1.len() == FINGERPRINT_LEN,
        fp2.len() == FINGERPRINT_LEN,
        d1.len() < WORD_MODULUS,
        d2.len() < WORD_MODULUS,
        bound_message(ts1, e1, d1, fp1) == bound_message(ts2, e2, d2, fp2),
    ensures
        ts1 == ts2,
        e1 == e2,
        d1 == d2,
        fp1 == fp2,
{
    let m1 = bound_message(ts1, e1, d1, fp1);
    let m2 = bound_message(ts2, e2, d2, fp2);
    assert(m1.len() == 56 + d1.len());
    assert(m2.len() == 56 + d2.len());
    assert(d1.len() == d2.len());
    let n = d1.len() as int;
    assert(le8(ts1) =~= le8(ts2)) by {
        assert(forall|i: int| 0 <= i < 8 ==> m1[i] == #[trigger] le8(ts1)[i]);
        assert(forall|i: int| 0 <= i < 8 ==> m2[i] == #[trigger] le8(ts2)[i]);
    }
    lemma_le8_injective(ts1, ts2);
    assert(le8(e1) =~= le8(e2)) by {
        assert(forall|i: int| 0 <= i < 8 ==> m1[8 + i] == #[trigger] le8(e1)[i]);
        assert(forall|i: int| 0 <= i < 8 ==> m2[8 + i] == #[trigger] le8(e2)[i]);
    }
    lemma_le8_injective(e1, e2);
    assert(d1 =~= d2) by {
        assert(forall|i: int| 0 <= i < n ==> m1[24 + i] == #[trigger] d1[i]);
        assert(forall|i: int| 0 <= i < n ==> m2[24 + i] == #[trigger] d2[i]);
    }
    assert(fp1 =~= fp2) by {
        assert(forall|i: int| 0 <= i < 32 ==> m1[24 + n + i] == #[trigger] fp1[i]);
        assert(forall|i: int| 0 <= i < 32 ==> m2[24 + n + i] == #[trigger] fp2[i]);
    }
}

/// Builds the bound message over the given fields; exact executable
/// counterpart of `bound_message`.
pub fn encode_bound_message(ts: u64, entropy: u64, data: &Vec<u8>, fp: &Vec<u8>) -> (r: Vec<u8>)
    requires
        fp@.len() == FINGERPRINT_LEN,
    ensures
        r@ == bound_message(ts, entropy, data@, fp@),
        r@.len() == bound_message_len(data@.len()),
{
    let mut out: Vec<u8> = Vec::new();
    push_le8(&mut out, ts);
    push_le8(&mut out, entropy);
    push_le8(&mut out, data.len() as u64);
    let mut i: usize = 0;
    while i < data.len()
        invariant
            i <= data@.len(),
            out@ == le8(ts) + le8(entropy) + le8(data@.len() as u64) + data@.subrange(0, i as int),
        decreases data@.len() - i,
    {
        out.push(data[i]);
        proof {
            assert(out@ =~= le8(ts) + le8(entropy) + le8(data@.len() as u64)
                + data@.subrange(0, i + 1 as int));
        }
        i = i + 1;
    }
    proof {
        assert(data@.subrange(0, data@.len() as int) =~= data@);
    }
    let mut j: usize = 0;
    while j < fp.len()
        invariant
            j <= fp@.len(),
            fp@.len() == FINGERPRINT_LEN,
            out@ == le8(ts) + le8(entropy) + le8(data@.len() as u64) + data@
                + fp@.subrange(0, j as int),
        decreases fp@.len() - j,
    {
        out.push(fp[j]);
        proof {
            assert(out@ =~= le8(ts) + le8(entropy) + le8(data@.len() as u64) + data@
                + fp@.subrange(0, j + 1 as int));
        }
        j = j + 1;
    }
    proof {
        assert(fp@.subrange(0, fp@.len() as int) =~= fp@);
        assert(out@ =~= bound_message(ts, entropy, data@, fp@));
    }
    out
}

} // verus!
