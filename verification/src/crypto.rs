//! Crypto layer: the keyed signature scheme that authenticates signals, and
//! the key-encapsulation mechanism used to establish shared secret material.
//! Both are deterministic keyed constructions over the engine's mixing
//! permutation, stated exactly so that every acceptance decision built on
//! them is pinned down; each sits behind its own small interface so another
//! primitive can be substituted without touching the runtime.

use vstd::prelude::*;

use crate::{WORD_MODULUS, mix, spec_wrap_add, wrap_add};
use crate::encoding::{BOUND_HEADER_LEN, FINGERPRINT_LEN, bound_message_len};
use crate::tvhash::{DIGEST_LEN, digest, keystream, stream_byte, stream_state, tv_digest};

verus! {

/// A signature over a message under a key: every message byte masked with
/// the keyed byte stream, followed by the fixed-width time-variant digest of
/// the message under the same key. The masked prefix makes the map from
/// message to signature injective for a fixed key, so a signature verifies
/// against exactly one bound message; the digest tail makes the signature
/// nontrivial even over the empty message and carries the time-variant
/// keying.
pub open spec fn sign_bytes(key: u64, msg: Seq<u8>) -> Seq<u8> {
    Seq::new(msg.len(), |i: int| msg[i] ^ stream_byte(key, i as nat)) + tv_digest(key, msg)
}

/// Length of a signature over a payload of the given length: the bound
/// message masked byte for byte, then the 32-byte digest.
pub open spec fn signature_len(data_len: nat) -> nat {
    (bound_message_len(data_len) + DIGEST_LEN) as nat
}

/// Bytes a signature holds beyond the payload bytes it masks.
pub const SIGNATURE_OVERHEAD: usize = BOUND_HEADER_LEN + FINGERPRINT_LEN + DIGEST_LEN;

/// Masking a byte with the same stream byte never maps two distinct bytes
/// together.
pub proof fn lemma_mask_injective(a: u8, b: u8, k: u8)
    requires
        a != b,
    ensures
        a ^ k != b ^ k,
{
    assert(a ^ k != b ^ k) by (bit_vector)
        requires
            a != b,
    ;
}

/// For a fixed key, distinct messages have distinct signatures.
pub proof fn lemma_sign_bytes_injective(key: u64, m1: Seq<u8>, m2: Seq<u8>)
    requires
        m1 != m2,
    ensures
        sign_bytes(key, m1) != sign_bytes(key, m2),
{
    if m1.len() == m2.len() {
        assert(!(forall|i: int| 0 <= i < m1.len() ==> m1[i] == m2[i])) by {
            if forall|i: int| 0 <= i < m1.len() ==> m1[i] == m2[i] {
                assert(m1 =~= m2);
            }
        }
        let i = choose|i: int| 0 <= i < m1.len() && m1[i] != m2[i];
        lemma_mask_injective(m1[i], m2[i], stream_byte(key, i as nat));
        assert(sign_bytes(key, m1)[i] != sign_bytes(key, m2)[i]);
    } else {
        assert(sign_bytes(key, m1).len() == m1.len() + DIGEST_LEN);
        assert(sign_bytes(key, m2).len() == m2.len() + DIGEST_LEN);
        assert(sign_bytes(key, m1).len() != sign_bytes(key, m2).len());
    }
}

/// Computes the signature of `msg` under `key`; exact executable counterpart
/// of `sign_bytes`.
pub fn sign(key: u64, msg: &Vec<u8>) -> (sig: Vec<u8>)
    ensures
        sig@ == sign_bytes(key, msg@),
{
    let stream: Vec<u8> = keystream(key, msg.len());
    let mut out: Vec<u8> = Vec::new();
    let mut i: usize = 0;
    while i < msg.len()
        invariant
            i <= msg@.len(),
            stream@.len() == msg@.len(),
            forall|j: int| 0 <= j < msg@.len() ==> stream@[j] == stream_byte(key, j as nat),
            out@.len() == i,
            forall|j: int| 0 <= j < i ==> out@[j] == sign_bytes(key, msg@)[j],
        decreases msg@.len() - i,
    {
        out.push(msg[i] ^ stream[i]);
        i = i + 1;
    }
    let mut tag: Vec<u8> = digest(key, msg);
    out.append(&mut tag);
    proof {
        assert(out@ =~= sign_bytes(key, msg@));
    }
    out
}

/// Byte-for-byte equality of two vectors. Equal-length inputs are compared
/// without an early exit: every byte is read and the verdict accumulated, so
/// the comparison's timing does not depend on where a mismatch sits, only on
/// the lengths.
pub fn bytes_equal(a: &Vec<u8>, b: &Vec<u8>) -> (r: bool)
    ensures
        r == (a@ == b@),
{
    if a.len() != b.len() {
        return false;
    }
    let mut same: bool = true;
    let mut i: usize = 0;
    while i < a.len()
        invariant
            i <= a@.len(),
            a@.len() == b@.len(),
            same == (forall|j: int| 0 <= j < i ==> a@[j] == b@[j]),
        decreases a@.len() - i,
    {
        same = same && (a[i] == b[i]);
        i = i + 1;
    }
    proof {
        if same {
            assert(a@ =~= b@);
        }
    }
    same
}

/// Checks a signature: recomputes the signature of `msg` under `key` and
/// compares. Accepts exactly the signature that `sign` produces.
pub fn verify_signature(key: u64, msg: &Vec<u8>, sig: &Vec<u8>) -> (r: bool)
    ensures
        r == (sig@ == sign_bytes(key, msg@)),
{
    let expected: Vec<u8> = sign(key, msg);
    bytes_equal(sig, &expected)
}

/// Tweak deriving a public key word from a secret key word.
pub const KEM_PK_TWEAK: u64 = 0x5157_4B45_4D50_4B31;

/// Tweak deriving the mask pad of an encapsulation.
pub const KEM_PAD_TWEAK: u64 = 0x5157_4B45_4D50_4432;

/// Tweak deriving the integrity tag of an encapsulation.
pub const KEM_TAG_TWEAK: u64 = 0x5157_4B45_4D54_4733;

/// Tweak deriving the shared secret of an encapsulation.
pub const KEM_SS_TWEAK: u64 = 0x5157_4B45_4D53_5334;

/// Wrapping 64-bit subtraction, defined as subtraction modulo 2^64.
pub open spec fn spec_wrap_sub(a: u64, b: u64) -> u64 {
    ((a - b) % (WORD_MODULUS as int)) as u64
}

/// Executable counterpart of `spec_wrap_sub`.
pub fn wrap_sub(a: u64, b: u64) -> (r: u64)
    ensures
        r == spec_wrap_sub(a, b),
{
    if a >= b {
        a - b
    } else {
        proof {
            vstd::arithmetic::div_mod::lemma_fundamental_div_mod_converse_mod(
                a - b, WORD_MODULUS as int, -1, a - b + WORD_MODULUS);
        }
        let wide: u128 = a as u128 + WORD_MODULUS - b as u128;
        wide as u64
    }
}

/// Unmasking inverts masking: subtracting the pad recovers the masked word.
pub proof fn lemma_mask_roundtrip(r: u64, pad: u64)
    ensures
        spec_wrap_sub(spec_wrap_add(r, pad), pad) == r,
{
    let m = WORD_MODULUS as int;
    let s = (r + pad) % m;
    vstd::arithmetic::div_mod::lemma_sub_mod_noop(r + pad, pad as int, m);
    assert((s - (pad as int) % m) % m == (r + pad - pad) % m);
    vstd::arithmetic::div_mod::lemma_small_mod(pad as nat, m as nat);
    vstd::arithmetic::div_mod::lemma_small_mod(r as nat, m as nat);
}

/// Secret key of the key-encapsulation mechanism.
pub struct KemSecretKey {
    key: u64,
}

impl KemSecretKey {
    /// The secret key word; closed, so nothing outside the crypto layer can
    /// depend on how key material is held.
    pub closed spec fn spec_key(&self) -> u64 {
        self.key
    }
}

/// Public key of the key-encapsulation mechanism.
pub struct KemPublicKey {
    pub key: u64,
}

/// An encapsulation: the masked ephemeral word and an integrity tag. A
/// ciphertext whose tag does not match is rejected, never decapsulated to a
/// guessable default.
pub struct KemCiphertext {
    pub masked: u64,
    pub tag: u64,
}

/// Error of the key-encapsulation mechanism.
#[derive(Debug, Clone, Copy, PartialEq, Eq, Structural)]
pub enum KemError {
    MalformedCiphertext,
}

/// Public key word derived from a secret key word.
pub open spec fn public_key_of(sk: u64) -> u64 {
    mix(sk, KEM_PK_TWEAK)
}

/// Mask pad of an encapsulation under a public key word.
pub open spec fn kem_pad(pk: u64) -> u64 {
    mix(pk, KEM_PAD_TWEAK)
}

/// Integrity tag over an ephemeral word under a public key word.
pub open spec fn kem_tag(pk: u64, r: u64) -> u64 {
    mix(mix(pk, KEM_TAG_TWEAK), r)
}

/// Shared secret derived from an ephemeral word under a public key word.
pub open spec fn kem_shared(pk: u64, r: u64) -> u64 {
    mix(mix(pk, KEM_SS_TWEAK), r)
}

/// Draws a fresh key pair. The public key is the stated derivation of the
/// secret key; the secret word itself is unconstrained.
pub fn kem_keygen() -> (r: (KemPublicKey, KemSecretKey))
    ensures
        r.0.key == public_key_of(r.1.spec_key()),
{
    let sk: u64 = rand::random::<u64>();
    (KemPublicKey { key: public_key_word(sk) }, KemSecretKey { key: sk })
}

/// Executable counterpart of `public_key_of`.
pub fn public_key_word(sk: u64) -> (r: u64)
    ensures
        r == public_key_of(sk),
{
    crate::mix_step(sk, KEM_PK_TWEAK)
}

/// Encapsulates a fresh shared secret to `pk`: draws an ephemeral word, masks
/// it with the pad of `pk`, and tags it. Whatever word was drawn, the
/// ciphertext carries exactly the word that unmasking recovers, its tag is
/// the tag of that word, and the shared secret is derived from that word.
pub fn encapsulate(pk: &KemPublicKey) -> (r: (KemCiphertext, u64))
    ensures
        r.0.tag == kem_tag(pk.key, spec_wrap_sub(r.0.masked, kem_pad(pk.key))),
        r.1 == kem_shared(pk.key, spec_wrap_sub(r.0.masked, kem_pad(pk.key))),
{
    let eph: u64 = rand::random::<u64>();
    let pad: u64 = crate::mix_step(pk.key, KEM_PAD_TWEAK);
    let masked: u64 = wrap_add(eph, pad);
    let tag: u64 = crate::mix_step(crate::mix_step(pk.key, KEM_TAG_TWEAK), eph);
    let shared: u64 = crate::mix_step(crate::mix_step(pk.key, KEM_SS_TWEAK), eph);
    proof {
        lemma_mask_roundtrip(eph, pad);
    }
    (KemCiphertext { masked, tag }, shared)
}

/// Decapsulates a ciphertext under `sk`: unmasks the ephemeral word, and
/// fails closed on any ciphertext whose tag does not match it. Succeeds for
/// exactly the ciphertexts whose tag is the tag of their unmasked word, and
/// then returns the shared secret of that word.
pub fn decapsulate(sk: &KemSecretKey, ct: &KemCiphertext) -> (r: Result<u64, KemError>)
    ensures
        r is Ok <==> ct.tag == kem_tag(
            public_key_of(sk.spec_key()),
            spec_wrap_sub(ct.masked, kem_pad(public_key_of(sk.spec_key()))),
        ),
        r is Ok ==> r->Ok_0 == kem_shared(
            public_key_of(sk.spec_key()),
            spec_wrap_sub(ct.masked, kem_pad(public_key_of(sk.spec_key()))),
        ),
        r is Err ==> r->Err_0 == KemError::MalformedCiphertext,
{
    let pk: u64 = public_key_word(sk.key);
    let pad: u64 = crate::mix_step(pk, KEM_PAD_TWEAK);
    let eph: u64 = wrap_sub(ct.masked, pad);
    let tag: u64 = crate::mix_step(crate::mix_step(pk, KEM_TAG_TWEAK), eph);
    if ct.tag == tag {
        Ok(crate::mix_step(crate::mix_step(pk, KEM_SS_TWEAK), eph))
    } else {
        Err(KemError::MalformedCiphertext)
    }
}

} // verus!
