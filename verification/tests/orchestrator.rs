//! End-to-end tests of the verification orchestrator.

use vote_verifier::digest::build_digest;
use vote_verifier::vote::{verify_vote, VoteError, VoteSignature, VoteStatement};

use k256::ecdsa::SigningKey;

const CHAIN_ID: u64 = 11155111;

fn u256_be(n: u64) -> Vec<u8> {
    let mut out = vec![0u8; 24];
    out.extend_from_slice(&n.to_be_bytes());
    out
}

fn signing_key(n: u8) -> SigningKey {
    let mut sk = [0u8; 32];
    sk[31] = n;
    SigningKey::from_slice(&sk).unwrap()
}

fn address_of(sk: &SigningKey) -> Vec<u8> {
    let point = sk.verifying_key().to_encoded_point(false);
    alloy_primitives::keccak256(&point.as_bytes()[1..])[12..].to_vec()
}

fn dao_address() -> Vec<u8> {
    let mut dao = vec![0u8; 18];
    dao.extend_from_slice(&[0x0D, 0xA0]);
    dao
}

fn token_address() -> Vec<u8> {
    vec![
        0x67, 0xa5, 0x3a, 0x2b, 0x99, 0x84, 0xAF, 0x64, 0xA2, 0xe2, 0x7b, 0x15, 0x82, 0xbC,
        0x72, 0x40, 0x6a, 0x23, 0x17, 0xc3,
    ]
}

/// A vote statement signed correctly by `sk`, with the 27/28 offset
/// convention for v.
fn signed_statement(
    sk: &SigningKey,
    direction: u8,
    balance: u64,
) -> (VoteStatement, VoteSignature) {
    let stmt = VoteStatement {
        chain_id: CHAIN_ID,
        dao: dao_address(),
        proposal_id: u256_be(0),
        direction,
        balance: u256_be(balance),
    };
    let digest = build_digest(
        stmt.chain_id,
        &stmt.dao,
        &stmt.proposal_id,
        stmt.direction,
        &stmt.balance,
    );
    let (sig, recid) = sk.sign_prehash_recoverable(&digest).unwrap();
    let bytes = sig.to_bytes();
    let sig = VoteSignature {
        r: bytes[..32].to_vec(),
        s: bytes[32..].to_vec(),
        v: 27 + recid.to_byte(),
    };
    (stmt, sig)
}

#[test]
fn proves_voting() {
    let sk = signing_key(1);
    let voter = address_of(&sk);
    let token = token_address();
    let commitment = vec![0xC0u8; 96];
    let (stmt, sig) = signed_statement(&sk, 1, 1000);

    let journal = verify_vote(&stmt, &sig, &voter, &token, &commitment, &u256_be(1000))
        .expect("a correctly signed vote with a matching balance must verify");

    assert_eq!(journal.commitment, commitment);
    assert_eq!(journal.token_address, token);
    assert_eq!(journal.voter, voter);
    assert_eq!(journal.balance, u256_be(1000));
    assert_eq!(journal.direction, 1);
}

#[test]
fn rejects_invalid_direction() {
    let sk = signing_key(1);
    let voter = address_of(&sk);
    let (stmt, sig) = signed_statement(&sk, 2, 1000);
    let r = verify_vote(&stmt, &sig, &voter, &token_address(), &vec![], &u256_be(1000));
    assert_eq!(r.err(), Some(VoteError::InvalidDirection));
}

#[test]
fn rejects_zero_balance() {
    let sk = signing_key(1);
    let voter = address_of(&sk);
    let (stmt, sig) = signed_statement(&sk, 1, 0);
    let r = verify_vote(&stmt, &sig, &voter, &token_address(), &vec![], &u256_be(0));
    assert_eq!(r.err(), Some(VoteError::NonPositiveBalance));
}

#[test]
fn rejects_unrelated_signer() {
    // Signed by one key, claimed to come from another.
    let signer = signing_key(2);
    let claimed_voter = address_of(&signing_key(1));
    let (stmt, sig) = signed_statement(&signer, 1, 1000);
    let r = verify_vote(&stmt, &sig, &claimed_voter, &token_address(), &vec![], &u256_be(1000));
    assert_eq!(r.err(), Some(VoteError::SignerMismatch));
}

#[test]
fn rejects_balance_mismatch() {
    let sk = signing_key(1);
    let voter = address_of(&sk);
    let (stmt, sig) = signed_statement(&sk, 1, 1000);
    let r = verify_vote(&stmt, &sig, &voter, &token_address(), &vec![], &u256_be(999));
    assert_eq!(r.err(), Some(VoteError::BalanceMismatch));
}

#[test]
fn rejects_unrecognized_v_value() {
    let sk = signing_key(1);
    let voter = address_of(&sk);
    let (stmt, mut sig) = signed_statement(&sk, 1, 1000);
    sig.v = 29;
    let r = verify_vote(&stmt, &sig, &voter, &token_address(), &vec![], &u256_be(1000));
    assert_eq!(r.err(), Some(VoteError::InvalidRecoveryId));
}

#[test]
fn rejects_noncanonical_signature() {
    let sk = signing_key(1);
    let voter = address_of(&sk);
    let (stmt, mut sig) = signed_statement(&sk, 1, 1000);
    sig.r = vec![0u8; 32];
    let r = verify_vote(&stmt, &sig, &voter, &token_address(), &vec![], &u256_be(1000));
    assert_eq!(r.err(), Some(VoteError::InvalidSignatureEncoding));
}

#[test]
fn rejects_unrecoverable_signature() {
    // A canonical-range (r, s) that no key produced over this digest:
    // recovery itself must fail, not merely mismatch.
    let sk = signing_key(1);
    let voter = address_of(&sk);
    let (stmt, mut sig) = signed_statement(&sk, 1, 1000);
    // s = order - 1 is canonical but high, which recovery refuses.
    sig.s = vec![
        0xFF, 0xFF, 0xFF, 0xFF, 0xFF, 0xFF, 0xFF, 0xFF, 0xFF, 0xFF, 0xFF, 0xFF, 0xFF, 0xFF,
        0xFF, 0xFE, 0xBA, 0xAE, 0xDC, 0xE6, 0xAF, 0x48, 0xA0, 0x3B, 0xBF, 0xD2, 0x5E, 0x8C,
        0xD0, 0x36, 0x41, 0x40,
    ];
    let r = verify_vote(&stmt, &sig, &voter, &token_address(), &vec![], &u256_be(1000));
    assert_eq!(r.err(), Some(VoteError::InvalidSignature));
}

#[test]
fn journals_identical_on_replay() {
    let sk = signing_key(1);
    let voter = address_of(&sk);
    let token = token_address();
    let commitment = vec![0xABu8; 64];
    let (stmt, sig) = signed_statement(&sk, 1, 1000);

    let first = verify_vote(&stmt, &sig, &voter, &token, &commitment, &u256_be(1000)).unwrap();
    let second = verify_vote(&stmt, &sig, &voter, &token, &commitment, &u256_be(1000)).unwrap();

    assert_eq!(first.commitment, second.commitment);
    assert_eq!(first.token_address, second.token_address);
    assert_eq!(first.voter, second.voter);
    assert_eq!(first.balance, second.balance);
    assert_eq!(first.direction, second.direction);
}
