//! AuthDecode: a two-party protocol in which a Prover convinces a Verifier
//! that a piece of plaintext corresponds to the active encodings selected
//! from a full encoding set the Verifier holds, without revealing the
//! plaintext. This crate provides the protocol core: the encoding data
//! model, the phase-ordered Prover and Verifier state machines, the
//! pluggable proof-backend and encoding-verifier contracts, and a mock
//! backend for exercising the protocol in isolation.

pub mod backend;
pub mod encodings;
pub mod mock;
pub mod properties;
pub mod prover;
pub mod utils;
pub mod verification;
