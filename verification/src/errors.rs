//! The failure kinds a verification can end in, and their stable numeric
//! codes for a host's error channel.

use vstd::prelude::*;

verus! {

/// Why a verification failed.  `SignatureInvalid` deliberately covers both a
/// malformed public key or signature and a well-formed but cryptographically
/// failing signature.
#[derive(Clone, Copy, Debug, PartialEq, Eq)]
pub enum DidCommitmentError {
    /// The recomputed aggregate differs from the recorded aggregate commitment.
    AggregateMismatch,
    /// The reconstructed Merkle root differs from the recorded credential root.
    InvalidMerkleProof,
    /// The public key or signature is malformed, or the signature does not
    /// verify strictly over the aggregate commitment.
    SignatureInvalid,
    /// The inbound bytes did not conform to the expected wire layout.
    DeserializeFailed,
}

/// The stable numeric code of each failure kind.
pub open spec fn error_code_spec(e: DidCommitmentError) -> u32 {
    match e {
        DidCommitmentError::AggregateMismatch => 0u32,
        DidCommitmentError::InvalidMerkleProof => 1u32,
        DidCommitmentError::SignatureInvalid => 2u32,
        DidCommitmentError::DeserializeFailed => 3u32,
    }
}

/// Map a failure kind to its stable numeric code, an explicit lookup so the
/// codes stay fixed independently of how the kinds are declared.
pub fn error_code(e: DidCommitmentError) -> (c: u32)
    ensures
        c == error_code_spec(e),
{
    match e {
        DidCommitmentError::AggregateMismatch => 0u32,
        DidCommitmentError::InvalidMerkleProof => 1u32,
        DidCommitmentError::SignatureInvalid => 2u32,
        DidCommitmentError::DeserializeFailed => 3u32,
    }
}

} // verus!
