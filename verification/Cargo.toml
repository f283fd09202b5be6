[package]
name = "vote_verifier"
version = "0.1.0"
edition = "2021"
publish = false

[dependencies]
tiny-keccak = { version = "2", features = ["keccak"] }
k256 = { version = "0.13", features = ["ecdsa"] }
alloy-primitives = "*"
alloy-sol-types = "*"
risc0-steel = "*"
risc0-zkvm = { version = "*", default-features = false }
