//! Proof lifecycle and parameter envelope for zero-knowledge proofs of
//! machine-learning inference.
//!
//! The crate holds the byte-level envelope that carries commitment parameters
//! together with the public outputs of a circuit, the canonical encoding of
//! scalar-field elements inside it, and the decision logic of the proving and
//! verifying pipelines.

pub mod args;
pub mod error;
pub mod envelope;
pub mod field;
pub mod proving;
pub mod verifying;
