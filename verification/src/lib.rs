//! Verification of Groth16 proofs over the BLS12-381 pairing group.
//!
//! A long-term [`VerifyingKey`] is turned once into a [`PreparedVerifyingKey`];
//! each [`Proof`] is then checked against it and a list of public inputs with
//! one batched Miller loop and one final exponentiation.

pub mod bls12;
pub mod data;
pub mod error;
pub mod preparer;
pub mod verification;

pub use data::{PreparedVerifyingKey, Proof, VerifyingKey};
pub use error::VerificationError;
pub use preparer::{negation_round_trip, prepare_verifying_key, try_prepare_verifying_key};
pub use verification::{accumulate_inputs, verdict, verify_proof};
