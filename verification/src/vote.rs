//! The verification orchestrator: validates a signed vote statement
//! against the claimed voter and the balance reported by the external
//! state-verification collaborator, and builds the output journal.

use vstd::prelude::*;
use crate::bytes::{
    be_nat, bytes_eq, all_zero, copy_bytes, push_all, lemma_be_nat_zero, lemma_be_nat_injective,
};
use crate::digest::{build_digest, vote_signing_digest};
use crate::recover::{ecrecover, ecrecover_outcome};

verus! {

/// Why a verification run was rejected. Every failure is fatal: the run
/// aborts on the first failed check and no journal is emitted.
#[derive(Clone, Copy, Debug, PartialEq, Eq, Structural)]
pub enum VoteError {
    /// `v` is outside all recognized recovery-id encodings.
    InvalidRecoveryId,
    /// (r, s) is outside the canonical range.
    InvalidSignatureEncoding,
    /// No public key recovers from the signature.
    InvalidSignature,
    /// The recovered address differs from the claimed voter.
    SignerMismatch,
    /// The vote direction is neither 0 nor 1.
    InvalidDirection,
    /// The claimed balance is zero.
    NonPositiveBalance,
    /// The collaborator-reported balance differs from the claimed one.
    BalanceMismatch,
}

/// The claim being voted on: all fields exactly as the signer committed
/// to them, with 256-bit integers held as 32-byte big-endian strings.
pub struct VoteStatement {
    pub chain_id: u64,
    pub dao: Vec<u8>,
    pub proposal_id: Vec<u8>,
    pub direction: u8,
    pub balance: Vec<u8>,
}

impl VoteStatement {
    /// The fixed field widths: a 20-byte DAO address and 32-byte
    /// big-endian proposal id and balance.
    pub open spec fn wf(&self) -> bool {
        &&& self.dao@.len() == 20
        &&& self.proposal_id@.len() == 32
        &&& self.balance@.len() == 32
    }
}

/// Raw signature components in Ethereum wire convention.
pub struct VoteSignature {
    pub r: Vec<u8>,
    pub s: Vec<u8>,
    pub v: u8,
}

impl VoteSignature {
    /// The fixed component widths: 32 bytes each for r and s.
    pub open spec fn wf(&self) -> bool {
        &&& self.r@.len() == 32
        &&& self.s@.len() == 32
    }
}

/// The sole externally observable output of a successful run, binding
/// the collaborator's state commitment, the token, the voter, the
/// balance and the direction.
pub struct Journal {
    pub commitment: Vec<u8>,
    pub token_address: Vec<u8>,
    pub voter: Vec<u8>,
    pub balance: Vec<u8>,
    pub direction: u8,
}

/// Whether a journal binds exactly the given field values.
pub open spec fn journal_matches(
    j: Journal,
    commitment: Seq<u8>,
    token: Seq<u8>,
    voter: Seq<u8>,
    balance: Seq<u8>,
    direction: u8,
) -> bool {
    &&& j.commitment@ == commitment
    &&& j.token_address@ == token
    &&& j.voter@ == voter
    &&& j.balance@ == balance
    &&& j.direction == direction
}

/// The full contract of a verification run: given the statement, the
/// signature, the claimed voter, the token address, the collaborator's
/// state commitment and its reported balance, exactly one outcome is
/// right, and this predicate says which.
pub open spec fn vote_outcome_ok(
    r: Result<Journal, VoteError>,
    stmt: VoteStatement,
    sig: VoteSignature,
    voter: Seq<u8>,
    token: Seq<u8>,
    commitment: Seq<u8>,
    collaborator_balance: Seq<u8>,
) -> bool {
    let digest = vote_signing_digest(
        stmt.chain_id,
        stmt.dao@,
        stmt.proposal_id@,
        stmt.direction,
        stmt.balance@,
    );
    match ecrecover_outcome(sig.v, sig.r@ + sig.s@, digest) {
        Err(e) => r == Err::<Journal, VoteError>(e),
        Ok(addr) => if addr != voter {
            r == Err::<Journal, VoteError>(VoteError::SignerMismatch)
        } else if !(stmt.direction == 0 || stmt.direction == 1) {
            r == Err::<Journal, VoteError>(VoteError::InvalidDirection)
        } else if be_nat(stmt.balance@) == 0 {
            r == Err::<Journal, VoteError>(VoteError::NonPositiveBalance)
        } else if be_nat(collaborator_balance) != be_nat(stmt.balance@) {
            r == Err::<Journal, VoteError>(VoteError::BalanceMismatch)
        } else {
            r matches Ok(j) && journal_matches(
                j,
                commitment,
                token,
                voter,
                stmt.balance@,
                stmt.direction,
            )
        },
    }
}

/// Validates a signed vote statement and builds the output journal.
///
/// The signing digest is reconstructed here from the trusted statement
/// fields — never taken from the caller — so a signature can only ever
/// validate against the statement actually being verified. Checks run in
/// a fixed order and the first failure aborts the run: recovery id,
/// signature encoding, key recovery, signer identity, direction,
/// balance positivity, balance agreement with the collaborator.
pub fn verify_vote(
    stmt: &VoteStatement,
    sig: &VoteSignature,
    voter: &Vec<u8>,
    token: &Vec<u8>,
    commitment: &Vec<u8>,
    collaborator_balance: &Vec<u8>,
) -> (r: Result<Journal, VoteError>)
    requires
        stmt.wf(),
        sig.wf(),
        voter@.len() == 20,
        token@.len() == 20,
        collaborator_balance@.len() == 32,
    ensures
        vote_outcome_ok(r, *stmt, *sig, voter@, token@, commitment@, collaborator_balance@),
{
    let digest = build_digest(stmt.chain_id, &stmt.dao, &stmt.proposal_id, stmt.direction,
        &stmt.balance);
    let mut rs: Vec<u8> = Vec::new();
    push_all(&mut rs, &sig.r);
    push_all(&mut rs, &sig.s);
    proof {
        assert(Seq::<u8>::empty() + sig.r@ + sig.s@ =~= sig.r@ + sig.s@);
    }
    let addr = match ecrecover(sig.v, &rs, &digest) {
        Ok(a) => a,
        Err(e) => {
            return Err(e);
        },
    };
    if !bytes_eq(&addr, voter) {
        return Err(VoteError::SignerMismatch);
    }
    if !(stmt.direction == 0 || stmt.direction == 1) {
        return Err(VoteError::InvalidDirection);
    }
    proof {
        lemma_be_nat_zero(stmt.balance@);
    }
    if all_zero(&stmt.balance) {
        return Err(VoteError::NonPositiveBalance);
    }
    if !bytes_eq(collaborator_balance, &stmt.balance) {
        proof {
            if be_nat(collaborator_balance@) == be_nat(stmt.balance@) {
                lemma_be_nat_injective(collaborator_balance@, stmt.balance@);
            }
        }
        return Err(VoteError::BalanceMismatch);
    }
    Ok(Journal {
        commitment: copy_bytes(commitment),
        token_address: copy_bytes(token),
        voter: copy_bytes(voter),
        balance: copy_bytes(&stmt.balance),
        direction: stmt.direction,
    })
}

/// A verification run is a pure function of its inputs: any two results
/// that meet the orchestrator's contract on identical inputs — the
/// collaborator's reported balance and commitment included — agree on
/// every journal field, or name the same error.
pub proof fn lemma_vote_outcome_unique(
    r1: Result<Journal, VoteError>,
    r2: Result<Journal, VoteError>,
    stmt: VoteStatement,
    sig: VoteSignature,
    voter: Seq<u8>,
    token: Seq<u8>,
    commitment: Seq<u8>,
    collaborator_balance: Seq<u8>,
)
    requires
        vote_outcome_ok(r1, stmt, sig, voter, token, commitment, collaborator_balance),
        vote_outcome_ok(r2, stmt, sig, voter, token, commitment, collaborator_balance),
    ensures
        r1 is Ok <==> r2 is Ok,
        r1 is Err ==> r1->Err_0 == r2->Err_0,
        r1 is Ok ==> {
            &&& r1->Ok_0.commitment@ == r2->Ok_0.commitment@
            &&& r1->Ok_0.token_address@ == r2->Ok_0.token_address@
            &&& r1->Ok_0.voter@ == r2->Ok_0.voter@
            &&& r1->Ok_0.balance@ == r2->Ok_0.balance@
            &&& r1->Ok_0.direction == r2->Ok_0.direction
        },
{
}

} // verus!
