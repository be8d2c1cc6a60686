//! The ways in which a verification can end without a verdict.

use vstd::prelude::*;

verus! {

/// Why a proof could not be judged. An invalid proof is not an error: it is
/// the verdict `false`.
#[derive(Clone, Copy, Debug, PartialEq, Eq, Structural)]
pub enum VerificationError {
    /// The number of public inputs is not the number of input coefficients
    /// of the key less one.
    MalformedVerifyingKey,
    /// The key has the optional fourth term and the proof does not, or the
    /// proof has it and the key does not.
    OptionalTermMismatch,
    /// The engine could not finish the final exponentiation.
    PairingComputationFailed,
}

} // verus!
