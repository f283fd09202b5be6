//! Verifier for a single-use signed vote statement.
//!
//! Given an Ethereum-convention signature over a structured vote message,
//! the crate rebuilds the canonical signing digest, recovers the signer's
//! address, and checks the vote's business invariants against a balance
//! obtained from an external state-verification collaborator, emitting a
//! compact journal on success.

pub mod bytes;
pub mod digest;
pub mod keccak;
pub mod recover;
pub mod vote;
