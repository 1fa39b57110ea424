//! The content-fingerprint used by the hash-conditional update policy.
//!
//! A fingerprint is a hash-based summary of a value; comparing the
//! fingerprints of the value before and after a mutation approximates "did
//! this change" without an equality comparison. The comparison is
//! best-effort: a collision between two different values may pass for
//! "unchanged". The one guarantee, and the one this module's contract states,
//! is that an unchanged value never passes for changed — provided the type
//! hashes deterministically, the condition `vstd` names `obeys_key_model`.
use vstd::prelude::*;

use core::hash::Hash;
use std::collections::hash_map::RandomState;
use std::hash::BuildHasher;
use vstd::std_specs::hash::obeys_key_model;

verus! {

/// Whether `a` and `b` have the same fingerprint: one freshly drawn hasher
/// state measures both values, and the two 64-bit results are compared.
///
/// Relies on `RandomState::hash_one` of std: one `RandomState` hashing two
/// values is deterministic over the bytes each value feeds it, so when `T`'s
/// `Hash` implementation is itself a deterministic function of the value
/// (`obeys_key_model`), identical values get identical fingerprints. The seed
/// is drawn per call, so nothing is stated about values that differ: their
/// fingerprints may collide.
#[verifier::external_body]
pub(crate) fn same_fingerprint<T: Hash>(a: &T, b: &T) -> (r: bool)
    ensures
        obeys_key_model::<T>() && a == b ==> r,
{
    let state = RandomState::new();
    state.hash_one(a) == state.hash_one(b)
}

} // verus!
