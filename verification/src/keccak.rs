//! The Keccak-256 hashing primitive, taken from tiny_keccak and left
//! abstract: every contract of this crate treats the hash as an opaque
//! deterministic function of the input bytes.

use vstd::prelude::*;
use tiny_keccak::Hasher;

verus! {

/// The Keccak-256 digest of a byte string. Left uninterpreted: the crate
/// assumes only that the digest is a function of the input bytes alone.
pub uninterp spec fn keccak256_of(data: Seq<u8>) -> Seq<u8>;

/// Relies on tiny_keccak's Keccak::v256, Hasher::update and
/// Hasher::finalize: the Keccak-256 digest of the input, 32 bytes,
/// depending on the input bytes alone.
#[verifier::external_body]
pub(crate) fn keccak256(data: &[u8]) -> (r: Vec<u8>)
    ensures
        r@ == keccak256_of(data@),
        r@.len() == 32,
{
    let mut digest = [0u8; 32];
    let mut hasher = tiny_keccak::Keccak::v256();
    hasher.update(data);
    hasher.finalize(&mut digest);
    digest.to_vec()
}

} // verus!
