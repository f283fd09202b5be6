//! Recovery-id normalization, secp256k1 public-key recovery, and address
//! derivation.
//!
//! The elliptic-curve recovery itself is taken from the k256 crate behind
//! a trusted wrapper; everything around it — the recovery-id encoding
//! table, the canonical range check on (r, s), and the address derivation
//! from the recovered key — is verified.

use vstd::prelude::*;
use crate::bytes::be_nat;
use crate::keccak::{keccak256, keccak256_of};
use crate::vote::VoteError;

verus! {

/// The order of the secp256k1 base-point group: (r, s) signature
/// components must lie strictly between 0 and this value.
pub open spec fn secp256k1_order() -> nat {
    0xFFFFFFFFFFFFFFFFFFFFFFFFFFFFFFFEBAAEDCE6AF48A03BBFD25E8CD0364141nat
}

/// The canonical recovery id encoded by an Ethereum-convention `v` value:
/// raw 0/1, the 27/28 offset convention, or an EIP-155 chain-id-embedded
/// value of at least 35; anything else is unrecognized.
pub open spec fn normalize_spec(v: u8) -> Option<u8> {
    if v == 0 {
        Some(0u8)
    } else if v == 1 {
        Some(1u8)
    } else if v == 27 {
        Some(0u8)
    } else if v == 28 {
        Some(1u8)
    } else if v >= 35 {
        Some((((v - 1) as int % 2) as u8))
    } else {
        None
    }
}

/// Maps an 8-bit `v` value, under all recognized historical encodings,
/// to the canonical binary recovery id.
pub fn normalize(v: u8) -> (r: Option<u8>)
    ensures
        r == normalize_spec(v),
        r matches Some(id) ==> id == 0 || id == 1,
{
    match v {
        0 => Some(0),
        1 => Some(1),
        27 => Some(0),
        28 => Some(1),
        _ => {
            if v >= 35 {
                Some((v - 1) % 2)
            } else {
                None
            }
        },
    }
}

/// Whether a 64-byte (r ‖ s) signature encoding is canonical: both
/// components, read as big-endian integers, lie strictly between 0 and
/// the secp256k1 group order.
pub open spec fn rs_canonical(rs: Seq<u8>) -> bool {
    &&& 0 < be_nat(rs.subrange(0, 32)) < secp256k1_order()
    &&& 0 < be_nat(rs.subrange(32, 64)) < secp256k1_order()
}

/// The public key that secp256k1 recovery yields for a canonical
/// signature, recovery id and 32-byte digest — the key's 64 coordinate
/// bytes (X ‖ Y of the uncompressed encoding) — or nothing, when no
/// valid point recovers. Left uninterpreted: the crate assumes only that
/// the outcome is a function of these arguments alone.
pub uninterp spec fn recovered_key_of(rs: Seq<u8>, recovery_id: u8, digest: Seq<u8>) -> Option<
    Seq<u8>,
>;

/// What public-key recovery produced: a key's coordinate bytes, or the
/// stage at which the signature was refused.
#[derive(Debug)]
pub enum RecoverOutcome {
    /// The 64 coordinate bytes of the recovered public key.
    Key(Vec<u8>),
    /// (r, s) is outside the canonical range.
    BadEncoding,
    /// No valid public key recovers from the signature.
    NoKey,
}

/// Relies on k256's ECDSA implementation: Signature::from_slice accepts
/// a 64-byte encoding exactly when r and s are each in 1..order;
/// VerifyingKey::recover_from_prehash deterministically recovers a
/// public key from (r, s, recovery id, digest) or fails; and
/// to_encoded_point(false) serializes the key as one tag byte followed
/// by its 64 coordinate bytes.
#[verifier::external_body]
fn recover_pubkey(rs: &[u8], recovery_id: u8, digest: &[u8]) -> (r: RecoverOutcome)
    requires
        rs@.len() == 64,
        digest@.len() == 32,
        recovery_id == 0 || recovery_id == 1,
    ensures
        match r {
            RecoverOutcome::Key(pk) => {
                &&& rs_canonical(rs@)
                &&& recovered_key_of(rs@, recovery_id, digest@) == Some(pk@)
                &&& pk@.len() == 64
            },
            RecoverOutcome::BadEncoding => !rs_canonical(rs@),
            RecoverOutcome::NoKey => {
                &&& rs_canonical(rs@)
                &&& recovered_key_of(rs@, recovery_id, digest@) is None
            },
        },
{
    let signature = match k256::ecdsa::Signature::from_slice(rs) {
        Ok(s) => s,
        Err(_) => return RecoverOutcome::BadEncoding,
    };
    let rid = k256::ecdsa::RecoveryId::from_byte(recovery_id).unwrap();
    match k256::ecdsa::VerifyingKey::recover_from_prehash(digest, &signature, rid) {
        Ok(vk) => RecoverOutcome::Key(vk.to_encoded_point(false).as_bytes()[1..].to_vec()),
        Err(_) => RecoverOutcome::NoKey,
    }
}

/// The 20-byte account address of a public key: the low-order 20 bytes
/// of the Keccak-256 digest of its 64 coordinate bytes.
pub open spec fn address_of_key(pubkey: Seq<u8>) -> Seq<u8> {
    keccak256_of(pubkey).subrange(12, 32)
}

/// Derives the 20-byte account address from a public key's 64 coordinate
/// bytes.
pub fn derive_address(pubkey: &Vec<u8>) -> (r: Vec<u8>)
    requires
        pubkey@.len() == 64,
    ensures
        r@ == address_of_key(pubkey@),
        r@.len() == 20,
{
    let hashed = keccak256(pubkey.as_slice());
    let mut r: Vec<u8> = Vec::new();
    for i in 12..32
        invariant
            hashed@ == keccak256_of(pubkey@),
            hashed@.len() == 32,
            r@ == hashed@.subrange(12, i as int),
    {
        r.push(hashed[i]);
        proof {
            assert(hashed@.subrange(12, i as int) + seq![hashed@[i as int]]
                =~= hashed@.subrange(12, i + 1));
        }
    }
    r
}

/// The result of Ethereum-convention signer recovery on given signature
/// components and digest: the recovered signer's address, or the error
/// naming the first check that failed.
pub open spec fn ecrecover_outcome(v: u8, rs: Seq<u8>, digest: Seq<u8>) -> Result<
    Seq<u8>,
    VoteError,
> {
    match normalize_spec(v) {
        None => Err(VoteError::InvalidRecoveryId),
        Some(rid) => if !rs_canonical(rs) {
            Err(VoteError::InvalidSignatureEncoding)
        } else {
            match recovered_key_of(rs, rid, digest) {
                None => Err(VoteError::InvalidSignature),
                Some(pk) => Ok(address_of_key(pk)),
            }
        },
    }
}

/// Recovers the signer's 20-byte address from the (v, r ‖ s) signature
/// components and a 32-byte digest, replicating the on-chain `ecrecover`
/// convention. Recovery alone does not bind the digest to any semantic
/// message; the caller must construct the digest from trusted inputs.
pub fn ecrecover(v: u8, rs: &Vec<u8>, digest: &Vec<u8>) -> (r: Result<Vec<u8>, VoteError>)
    requires
        rs@.len() == 64,
        digest@.len() == 32,
    ensures
        match r {
            Ok(addr) => ecrecover_outcome(v, rs@, digest@) == Ok::<Seq<u8>, VoteError>(addr@)
                && addr@.len() == 20,
            Err(e) => ecrecover_outcome(v, rs@, digest@) == Err::<Seq<u8>, VoteError>(e),
        },
{
    let rid = match normalize(v) {
        Some(rid) => rid,
        None => {
            return Err(VoteError::InvalidRecoveryId);
        },
    };
    match recover_pubkey(rs.as_slice(), rid, digest.as_slice()) {
        RecoverOutcome::BadEncoding => Err(VoteError::InvalidSignatureEncoding),
        RecoverOutcome::NoKey => Err(VoteError::InvalidSignature),
        RecoverOutcome::Key(pk) => Ok(derive_address(&pk)),
    }
}

} // verus!
