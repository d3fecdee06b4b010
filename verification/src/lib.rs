//! Signal attestation engine: issues short-lived signals that bind a payload,
//! a timestamp, an entropy value and a hardware fingerprint under a keyed
//! signature, and validates such signals against replay, forgery, timestamp
//! manipulation and hardware spoofing.
//!
//! The engine is split along its components: byte-level encoding of the bound
//! message, the time-variant keyed stream, the entropy state manager, the
//! hardware profile binder, the crypto layer (signature scheme and key
//! encapsulation), and the signal runtime that owns the replay cache and the
//! temporal policy. Attack drivers that exercise the runtime live in `attack`.

use vstd::prelude::*;

pub mod encoding;
pub mod tvhash;
pub mod crypto;
pub mod rng;
pub mod entropy;
pub mod hardware;
pub mod runtime;
pub mod laws;
pub mod attack;
pub mod audit;

verus! {

/// One past the largest `u64` value; the modulus of wrapping 64-bit arithmetic.
pub const WORD_MODULUS: u128 = 0x1_0000_0000_0000_0000;

/// Multiplier of the mixing step (a 64-bit odd constant with good diffusion).
pub const MIX_MULT: u64 = 0x9E37_79B9_7F4A_7C15;

/// Additive constant of the mixing step.
pub const MIX_INC: u64 = 0xA076_1D64_78BD_642F;

/// Wrapping 64-bit addition, defined as addition modulo 2^64.
pub open spec fn spec_wrap_add(a: u64, b: u64) -> u64 {
    ((a + b) % (WORD_MODULUS as int)) as u64
}

/// Wrapping 64-bit addition; exact executable counterpart of `spec_wrap_add`.
pub fn wrap_add(a: u64, b: u64) -> (r: u64)
    ensures
        r == spec_wrap_add(a, b),
{
    let wide: u128 = a as u128 + b as u128;
    (wide % WORD_MODULUS) as u64
}

/// Wrapping addition that does not overflow is plain addition.
pub proof fn lemma_wrap_add_no_overflow(a: u64, b: u64)
    requires
        a + b <= u64::MAX,
    ensures
        spec_wrap_add(a, b) == a + b,
{
    vstd::arithmetic::div_mod::lemma_small_mod((a + b) as nat, WORD_MODULUS as nat);
}

/// Two non-negative numbers that are distinct but less than the modulus apart
/// have distinct residues modulo 2^64.
pub proof fn lemma_mod_window_distinct(x: int, y: int)
    requires
        0 <= x < y,
        y - x < WORD_MODULUS,
    ensures
        x % (WORD_MODULUS as int) != y % (WORD_MODULUS as int),
{
    let m: int = WORD_MODULUS as int;
    if x % m == y % m {
        vstd::arithmetic::div_mod::lemma_fundamental_div_mod(x, m);
        vstd::arithmetic::div_mod::lemma_fundamental_div_mod(y, m);
        vstd::arithmetic::div_mod::lemma_div_is_ordered(x, y, m);
        let k: int = y / m - x / m;
        assert(y - x == m * k) by (nonlinear_arith)
            requires
                x == m * (x / m) + x % m,
                y == m * (y / m) + y % m,
                x % m == y % m,
                k == y / m - x / m,
        ;
        if k >= 1 {
            assert(m * k >= m) by (nonlinear_arith)
                requires
                    m > 0,
                    k >= 1,
            ;
        }
    }
}

/// Offsetting a word by a non-zero amount below the modulus never returns the
/// same word: wrapping addition has no non-trivial fixed point.
pub proof fn lemma_wrap_add_nonzero(e: u64, delta: u64)
    requires
        delta != 0,
    ensures
        spec_wrap_add(e, delta) != e,
{
    let m: int = WORD_MODULUS as int;
    vstd::arithmetic::div_mod::lemma_small_mod(e as nat, m as nat);
    lemma_mod_window_distinct(e as int, e + delta);
}

/// One step of the keyed mixing permutation: `(a * MIX_MULT + b + MIX_INC) mod 2^64`.
/// Every derived key, stream byte and fingerprint word in the engine is built
/// from iterated applications of this step.
pub open spec fn mix(a: u64, b: u64) -> u64 {
    ((a * MIX_MULT + b + MIX_INC) % (WORD_MODULUS as int)) as u64
}

/// Executable counterpart of `mix`, computed without overflow in 128 bits.
pub fn mix_step(a: u64, b: u64) -> (r: u64)
    ensures
        r == mix(a, b),
{
    proof {
        assert((a as int) * (MIX_MULT as int) <= 0xffff_ffff_ffff_ffff * (MIX_MULT as int))
            by (nonlinear_arith)
            requires
                a <= 0xffff_ffff_ffff_ffffu64,
        ;
    }
    let wide: u128 = a as u128 * MIX_MULT as u128 + b as u128 + MIX_INC as u128;
    (wide % WORD_MODULUS) as u64
}

} // verus!
