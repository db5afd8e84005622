//! Failure kinds surfaced by the bridge ledger.
//!
//! Every operation either commits all of its record writes or returns one of
//! these kinds and leaves the store untouched.

use vstd::prelude::*;

verus! {

/// Reasons a ledger operation can be rejected.
#[derive(Clone, Copy, Debug, PartialEq, Eq, Structural)]
pub enum BridgeError {
    /// A required signer did not co-sign the call.
    MissingRequiredSignature,
    /// The target storage already holds a valid record.
    AlreadyInitialized,
    /// A dependency record does not exist or holds stale data.
    Uninitialized,
    /// The storage backing is insufficiently funded for permanence.
    NotRentExempt,
    /// A caller-supplied address does not match the re-derived one.
    InvalidSeeds,
    /// A claimed field disagrees with the stored record, or the caller
    /// does not own the claimed validator record.
    InvalidArgument,
    /// A chain identifier field does not hold valid UTF-8 text.
    BadChainId,
    /// A derived seed string exceeds the address service's limit.
    MaxSeedLengthExceeded,
    /// The owning program's address may not end in the derivation marker.
    IllegalOwner,
    /// Storage holds bytes of a different record kind.
    InvalidAccountData,
    /// A monotonic counter cannot be advanced any further.
    ArithmeticOverflow,
    /// The call supplied fewer storage addresses than the operation needs.
    NotEnoughAccountKeys,
    /// The operation payload cannot be decoded.
    InvalidInstructionData,
}

/// Error codes specific to this bridge deployment, kept distinguishable
/// from the general kinds above for callers that decode custom codes.
#[derive(Clone, Copy, Debug, PartialEq, Eq, Structural)]
pub enum SolBridgeProgramError {
    /// A supplied signature blob failed the host-side validity check.
    InvalidSignature,
    /// The expected secp256k1 verification instruction was absent.
    Secp256InstructionLosing,
}

impl SolBridgeProgramError {
    /// Numeric custom-error code carried across the call boundary.
    pub fn code(&self) -> (c: u32)
        ensures
            c == (if self is InvalidSignature {
                0u32
            } else {
                1u32
            }),
    {
        match self {
            SolBridgeProgramError::InvalidSignature => 0,
            SolBridgeProgramError::Secp256InstructionLosing => 1,
        }
    }
}

} // verus!
