//! The engine's only untrusted-input boundary: drawing fresh random words for
//! key material and entropy seeds.

use vstd::prelude::*;

verus! {

/// Relies on rand::random: draws a value from the thread-local generator.
/// Nothing can be promised of the value drawn, so no clause constrains it;
/// callers state what holds of every outcome.
pub assume_specification<T>[ rand::random::<T> ]() -> (r: T)
    where
        rand::distributions::Standard: rand::distributions::Distribution<T>,
;

} // verus!
