//! Hardware profile binder: reduces stable hardware identifiers to a 32-byte
//! fingerprint through the one-way keyed stream, and checks a profile under
//! test against the expected fingerprint. A profile with an all-zero
//! fingerprint or empty feature or capability sets is definitionally invalid,
//! whatever its fingerprint: placeholder profiles never validate.

use vstd::prelude::*;

use crate::encoding::FINGERPRINT_LEN;
use crate::tvhash::{absorb, absorb_bytes, keystream, stream_byte};

verus! {

/// A hardware profile: the fingerprint digest of the instance's stable
/// identifiers, its capability tags, and its capability versions.
pub struct HardwareProfile {
    pub fingerprint: Vec<u8>,
    pub features: Vec<u64>,
    pub capabilities: Vec<(u64, u64)>,
}

/// Mathematical image of a hardware profile.
#[verifier::ext_equal]
pub struct ProfileModel {
    pub fingerprint: Seq<u8>,
    pub features: Seq<u64>,
    pub capabilities: Seq<(u64, u64)>,
}

impl View for HardwareProfile {
    type V = ProfileModel;

    open spec fn view(&self) -> ProfileModel {
        ProfileModel {
            fingerprint: self.fingerprint@,
            features: self.features@,
            capabilities: self.capabilities@,
        }
    }
}

/// Every byte of the sequence is zero.
pub open spec fn all_zero(s: Seq<u8>) -> bool {
    forall|i: int| 0 <= i < s.len() ==> s[i] == 0
}

/// A degenerate profile: zeroed fingerprint, or empty feature or capability
/// sets. Degenerate profiles never validate, whatever the expected
/// fingerprint.
pub open spec fn degenerate(p: ProfileModel) -> bool {
    ||| all_zero(p.fingerprint)
    ||| p.features.len() == 0
    ||| p.capabilities.len() == 0
}

/// The feature and capability collections behave as a set and a map: feature
/// tags are unique, and so are capability names, as an enrollment produces
/// them.
pub open spec fn profile_sets_unique(p: ProfileModel) -> bool {
    &&& forall|i: int, j: int| 0 <= i < j < p.features.len()
        ==> p.features[i] != p.features[j]
    &&& forall|i: int, j: int| 0 <= i < j < p.capabilities.len()
        ==> p.capabilities[i].0 != p.capabilities[j].0
}

/// The fingerprint digest of a sequence of hardware identifiers: the
/// identifiers absorbed into the mixing permutation, expanded to 32 stream
/// bytes.
pub open spec fn fingerprint_of(identifiers: Seq<u8>) -> Seq<u8> {
    Seq::new(FINGERPRINT_LEN as nat, |i: int| stream_byte(absorb(identifiers), i as nat))
}

/// Computes the fingerprint digest; exact executable counterpart of
/// `fingerprint_of`.
pub fn derive_fingerprint(identifiers: &Vec<u8>) -> (r: Vec<u8>)
    ensures
        r@ == fingerprint_of(identifiers@),
        r@.len() == FINGERPRINT_LEN,
{
    let key: u64 = absorb_bytes(identifiers);
    let stream: Vec<u8> = keystream(key, FINGERPRINT_LEN);
    proof {
        assert(stream@ =~= fingerprint_of(identifiers@));
    }
    stream
}

/// Whether every byte of `v` is zero.
pub fn is_all_zero(v: &Vec<u8>) -> (r: bool)
    ensures
        r == all_zero(v@),
{
    let mut i: usize = 0;
    while i < v.len()
        invariant
            i <= v@.len(),
            forall|j: int| 0 <= j < i ==> v@[j] == 0,
        decreases v@.len() - i,
    {
        if v[i] != 0 {
            return false;
        }
        i = i + 1;
    }
    true
}

/// Whether a profile is degenerate; executable counterpart of `degenerate`.
pub fn is_degenerate(p: &HardwareProfile) -> (r: bool)
    ensures
        r == degenerate(p@),
{
    if p.features.len() == 0 {
        return true;
    }
    if p.capabilities.len() == 0 {
        return true;
    }
    is_all_zero(&p.fingerprint)
}

/// Checks a profile against an expected fingerprint: the profile must not be
/// degenerate and its fingerprint must equal the expected one byte for byte.
/// The fingerprint comparison reads every byte of equal-length inputs, so its
/// timing does not depend on where a mismatch sits.
pub fn verify_profile(expected_fingerprint: &Vec<u8>, p: &HardwareProfile) -> (r: bool)
    ensures
        r == (!degenerate(p@) && p@.fingerprint == expected_fingerprint@),
{
    let degenerate_profile: bool = is_degenerate(p);
    let matches: bool = crate::crypto::bytes_equal(&p.fingerprint, expected_fingerprint);
    !degenerate_profile && matches
}

/// Copies a byte vector.
pub fn copy_bytes(v: &Vec<u8>) -> (r: Vec<u8>)
    ensures
        r@ == v@,
{
    let mut out: Vec<u8> = Vec::new();
    let mut i: usize = 0;
    while i < v.len()
        invariant
            i <= v@.len(),
            out@ == v@.subrange(0, i as int),
        decreases v@.len() - i,
    {
        out.push(v[i]);
        proof {
            assert(out@ =~= v@.subrange(0, i + 1 as int));
        }
        i = i + 1;
    }
    proof {
        assert(v@.subrange(0, v@.len() as int) =~= v@);
    }
    out
}

/// Copies a word vector.
pub fn copy_words(v: &Vec<u64>) -> (r: Vec<u64>)
    ensures
        r@ == v@,
{
    let mut out: Vec<u64> = Vec::new();
    let mut i: usize = 0;
    while i < v.len()
        invariant
            i <= v@.len(),
            out@ == v@.subrange(0, i as int),
        decreases v@.len() - i,
    {
        out.push(v[i]);
        proof {
            assert(out@ =~= v@.subrange(0, i + 1 as int));
        }
        i = i + 1;
    }
    proof {
        assert(v@.subrange(0, v@.len() as int) =~= v@);
    }
    out
}

/// Copies a vector of capability pairs.
pub fn copy_pairs(v: &Vec<(u64, u64)>) -> (r: Vec<(u64, u64)>)
    ensures
        r@ == v@,
{
    let mut out: Vec<(u64, u64)> = Vec::new();
    let mut i: usize = 0;
    while i < v.len()
        invariant
            i <= v@.len(),
            out@ == v@.subrange(0, i as int),
        decreases v@.len() - i,
    {
        out.push(v[i]);
        proof {
            assert(out@ =~= v@.subrange(0, i + 1 as int));
        }
        i = i + 1;
    }
    proof {
        assert(v@.subrange(0, v@.len() as int) =~= v@);
    }
    out
}

/// Copies a profile field for field.
pub fn copy_profile(p: &HardwareProfile) -> (r: HardwareProfile)
    ensures
        r@ == p@,
{
    let r = HardwareProfile {
        fingerprint: copy_bytes(&p.fingerprint),
        features: copy_words(&p.features),
        capabilities: copy_pairs(&p.capabilities),
    };
    proof {
        assert(r@ == p@);
    }
    r
}

/// A binding with its first fingerprint byte flipped: the modified profile
/// keeps the feature and capability sets but no longer matches the
/// fingerprint it was derived from.
pub fn modify_hardware_binding(p: &HardwareProfile) -> (r: HardwareProfile)
    requires
        p@.fingerprint.len() > 0,
    ensures
        r@.fingerprint == p@.fingerprint.update(0, p@.fingerprint[0] ^ 1),
        r@.fingerprint[0] != p@.fingerprint[0],
        r@.features == p@.features,
        r@.capabilities == p@.capabilities,
{
    let mut modified: HardwareProfile = copy_profile(p);
    let flipped: u8 = modified.fingerprint[0] ^ 1;
    modified.fingerprint.set(0, flipped);
    proof {
        let b = p@.fingerprint[0];
        assert(b ^ 1 != b) by (bit_vector);
    }
    modified
}

} // verus!
