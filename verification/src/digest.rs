//! The vote digest builder: canonical byte encoding of a vote statement,
//! its Keccak-256 message hash, and the Ethereum personal-message signing
//! digest derived from it.

use vstd::prelude::*;
use crate::bytes::{u64_be, u64_to_be_bytes, push_all, lemma_u64_be_injective};
use crate::keccak::{keccak256, keccak256_of};

verus! {

/// The fixed ASCII prefix of the Ethereum personal-message signing
/// convention: `"\x19Ethereum Signed Message:\n32"`, 28 bytes.
pub open spec fn eth_signed_prefix() -> Seq<u8> {
    seq![
        0x19u8, 0x45u8, 0x74u8, 0x68u8, 0x65u8, 0x72u8, 0x65u8, 0x75u8, 0x6du8,
        0x20u8, 0x53u8, 0x69u8, 0x67u8, 0x6eu8, 0x65u8, 0x64u8, 0x20u8, 0x4du8,
        0x65u8, 0x73u8, 0x73u8, 0x61u8, 0x67u8, 0x65u8, 0x3au8, 0x0au8, 0x33u8,
        0x32u8,
    ]
}

fn signed_message_prefix() -> (r: Vec<u8>)
    ensures
        r@ == eth_signed_prefix(),
{
    let mut r: Vec<u8> = Vec::new();
    r.push(0x19);
    r.push(0x45);
    r.push(0x74);
    r.push(0x68);
    r.push(0x65);
    r.push(0x72);
    r.push(0x65);
    r.push(0x75);
    r.push(0x6d);
    r.push(0x20);
    r.push(0x53);
    r.push(0x69);
    r.push(0x67);
    r.push(0x6e);
    r.push(0x65);
    r.push(0x64);
    r.push(0x20);
    r.push(0x4d);
    r.push(0x65);
    r.push(0x73);
    r.push(0x73);
    r.push(0x61);
    r.push(0x67);
    r.push(0x65);
    r.push(0x3a);
    r.push(0x0a);
    r.push(0x33);
    r.push(0x32);
    proof {
        assert(r@ =~= eth_signed_prefix());
    }
    r
}

/// The canonical byte encoding of a vote statement, in the fixed
/// concatenation order: chain id as 8-byte big-endian, DAO address as
/// 20 bytes, proposal id as 32-byte big-endian, direction as one byte,
/// balance as 32-byte big-endian.
pub open spec fn vote_encoding(
    chain_id: u64,
    dao: Seq<u8>,
    proposal_id: Seq<u8>,
    direction: u8,
    balance: Seq<u8>,
) -> Seq<u8> {
    u64_be(chain_id) + dao + proposal_id + seq![direction] + balance
}

/// The raw message hash of a vote statement.
pub open spec fn vote_message_hash(
    chain_id: u64,
    dao: Seq<u8>,
    proposal_id: Seq<u8>,
    direction: u8,
    balance: Seq<u8>,
) -> Seq<u8> {
    keccak256_of(vote_encoding(chain_id, dao, proposal_id, direction, balance))
}

/// The final signing digest of a vote statement: the message hash,
/// prefixed with the personal-message prefix and hashed again.
pub open spec fn vote_signing_digest(
    chain_id: u64,
    dao: Seq<u8>,
    proposal_id: Seq<u8>,
    direction: u8,
    balance: Seq<u8>,
) -> Seq<u8> {
    keccak256_of(
        eth_signed_prefix() + vote_message_hash(chain_id, dao, proposal_id, direction, balance),
    )
}

/// Serializes a vote statement into its canonical byte encoding.
pub fn encode_vote(
    chain_id: u64,
    dao: &Vec<u8>,
    proposal_id: &Vec<u8>,
    direction: u8,
    balance: &Vec<u8>,
) -> (r: Vec<u8>)
    requires
        dao@.len() == 20,
        proposal_id@.len() == 32,
        balance@.len() == 32,
    ensures
        r@ == vote_encoding(chain_id, dao@, proposal_id@, direction, balance@),
{
    let mut r = u64_to_be_bytes(chain_id);
    push_all(&mut r, dao);
    push_all(&mut r, proposal_id);
    r.push(direction);
    push_all(&mut r, balance);
    proof {
        assert(r@ =~= vote_encoding(chain_id, dao@, proposal_id@, direction, balance@));
    }
    r
}

/// Builds the final signing digest a wallet produces for this vote:
/// hash the canonical encoding, prepend the personal-message prefix,
/// and hash again.
pub fn build_digest(
    chain_id: u64,
    dao: &Vec<u8>,
    proposal_id: &Vec<u8>,
    direction: u8,
    balance: &Vec<u8>,
) -> (r: Vec<u8>)
    requires
        dao@.len() == 20,
        proposal_id@.len() == 32,
        balance@.len() == 32,
    ensures
        r@ == vote_signing_digest(chain_id, dao@, proposal_id@, direction, balance@),
        r@.len() == 32,
{
    let encoded = encode_vote(chain_id, dao, proposal_id, direction, balance);
    let message_hash = keccak256(encoded.as_slice());
    let mut prefixed = signed_message_prefix();
    push_all(&mut prefixed, &message_hash);
    keccak256(prefixed.as_slice())
}

/// The digest builder is a pure function: any two results that meet its
/// contract on identical inputs are the same 32-byte value.
pub proof fn lemma_build_digest_deterministic(
    r1: Seq<u8>,
    r2: Seq<u8>,
    chain_id: u64,
    dao: Seq<u8>,
    proposal_id: Seq<u8>,
    direction: u8,
    balance: Seq<u8>,
)
    requires
        r1 == vote_signing_digest(chain_id, dao, proposal_id, direction, balance),
        r2 == vote_signing_digest(chain_id, dao, proposal_id, direction, balance),
    ensures
        r1 == r2,
{
}

/// Domain separation of the canonical encoding: two vote statements that
/// differ in any field have different canonical encodings, so the digest
/// builder feeds distinct messages to the hash.
pub proof fn lemma_vote_encoding_injective(
    c1: u64, d1: Seq<u8>, p1: Seq<u8>, dir1: u8, b1: Seq<u8>,
    c2: u64, d2: Seq<u8>, p2: Seq<u8>, dir2: u8, b2: Seq<u8>,
)
    requires
        d1.len() == 20, p1.len() == 32, b1.len() == 32,
        d2.len() == 20, p2.len() == 32, b2.len() == 32,
        vote_encoding(c1, d1, p1, dir1, b1) == vote_encoding(c2, d2, p2, dir2, b2),
    ensures
        c1 == c2,
        d1 == d2,
        p1 == p2,
        dir1 == dir2,
        b1 == b2,
{
    let e1 = vote_encoding(c1, d1, p1, dir1, b1);
    let e2 = vote_encoding(c2, d2, p2, dir2, b2);
    assert(e1.subrange(0, 8) =~= u64_be(c1));
    assert(e2.subrange(0, 8) =~= u64_be(c2));
    lemma_u64_be_injective(c1, c2);
    assert(d1 =~= e1.subrange(8, 28));
    assert(d2 =~= e2.subrange(8, 28));
    assert(p1 =~= e1.subrange(28, 60));
    assert(p2 =~= e2.subrange(28, 60));
    assert(dir1 == e1[60]);
    assert(dir2 == e2[60]);
    assert(b1 =~= e1.subrange(61, 93));
    assert(b2 =~= e2.subrange(61, 93));
}

} // verus!
