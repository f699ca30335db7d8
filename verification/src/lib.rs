//! Stateless verification of DID commitment tuples.
//!
//! The library recomputes an aggregate keccak-256 commitment over a
//! decentralized-identifier hash, a credential Merkle root and a
//! zero-knowledge commitment, reconstructs the Merkle root from a leaf and a
//! sibling path, and checks a strict Ed25519 signature over the aggregate.
//! The three checks are composed, in that fixed order, into a single
//! pass/fail verification of a [`VerifyInstruction`].

pub mod commitment;
pub mod errors;
pub mod instruction;
pub mod hash;
pub mod merkle;
pub mod signature;
pub mod wire;

pub use crate::commitment::CommitmentTuple;
pub use crate::errors::DidCommitmentError;
pub use crate::errors::error_code;
pub use crate::instruction::VerifyInstruction;
pub use crate::instruction::verify_commitment;
pub use crate::merkle::compute_merkle_root;
pub use crate::signature::sign_commitment;
pub use crate::signature::verify_signature;
pub use crate::wire::decode_instruction;
pub use crate::wire::process_instruction_data;
