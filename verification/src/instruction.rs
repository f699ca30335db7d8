//! The verification request and the fixed-order verification pipeline.

use vstd::prelude::*;
use crate::commitment::CommitmentTuple;
use crate::errors::DidCommitmentError;
use crate::hash::hash_eq;
use crate::merkle::compute_merkle_root;
use crate::merkle::hash_seq;
use crate::merkle::merkle_root_spec;
use crate::signature::ed25519_verifies_strict;
use crate::signature::verify_signature;

verus! {

/// One verification request: the commitment tuple, the credential leaf with
/// its Merkle position and sibling path, and the Ed25519 key and signature
/// over the aggregate commitment.
#[derive(Clone, Debug, PartialEq, Eq)]
pub struct VerifyInstruction {
    pub commitment: CommitmentTuple,
    pub credential_leaf: crate::hash::Hash,
    pub index: u64,
    pub merkle_proof: Vec<crate::hash::Hash>,
    pub ed25519_public_key: [u8; 32],
    pub ed25519_signature: [u8; 64],
}

impl VerifyInstruction {
    /// The sibling hashes of the Merkle proof, as byte sequences.
    pub open spec fn proof_hashes(self) -> Seq<Seq<u8>> {
        hash_seq(self.merkle_proof@)
    }

    /// Whether the recorded aggregate commitment recomputes.
    pub open spec fn aggregate_ok(self) -> bool {
        self.commitment.aggregate_consistent()
    }

    /// Whether the Merkle proof reconstructs the recorded credential root.
    pub open spec fn merkle_ok(self) -> bool {
        merkle_root_spec(self.credential_leaf@, self.proof_hashes(), self.index as nat)
            == self.commitment.credential_root@
    }

    /// Whether the signature verifies strictly over the aggregate commitment.
    pub open spec fn signature_ok(self) -> bool {
        ed25519_verifies_strict(
            self.ed25519_public_key@,
            self.ed25519_signature@,
            self.commitment.aggregate_commitment@,
        )
    }
}

/// The outcome the pipeline must produce: the three checks in their fixed
/// order, the first failing one naming the error.
pub open spec fn verify_outcome(instruction: VerifyInstruction) -> Result<(), DidCommitmentError> {
    if !instruction.aggregate_ok() {
        Err(DidCommitmentError::AggregateMismatch)
    } else if !instruction.merkle_ok() {
        Err(DidCommitmentError::InvalidMerkleProof)
    } else if !instruction.signature_ok() {
        Err(DidCommitmentError::SignatureInvalid)
    } else {
        Ok(())
    }
}

/// Verify a request: recompute the aggregate commitment, reconstruct the
/// Merkle root, and check the strict Ed25519 signature over the aggregate,
/// in that order, stopping at the first failure.
pub fn verify_commitment(instruction: &VerifyInstruction) -> (r: Result<(), DidCommitmentError>)
    ensures
        r == verify_outcome(*instruction),
{
    let recomputed = instruction.commitment.recompute_aggregate();
    if !hash_eq(&recomputed, &instruction.commitment.aggregate_commitment) {
        return Err(DidCommitmentError::AggregateMismatch);
    }
    let leaf_root = compute_merkle_root(
        instruction.credential_leaf,
        instruction.merkle_proof.as_slice(),
        instruction.index,
    );
    if !hash_eq(&leaf_root, &instruction.commitment.credential_root) {
        return Err(DidCommitmentError::InvalidMerkleProof);
    }
    if !verify_signature(
        &instruction.ed25519_public_key,
        &instruction.ed25519_signature,
        &instruction.commitment.aggregate_commitment,
    ) {
        return Err(DidCommitmentError::SignatureInvalid);
    }
    Ok(())
}

/// Tampering with the recorded aggregate commitment alone is caught by the
/// first check: a request whose input hashes match a consistent one but whose
/// recorded aggregate differs anywhere fails with `AggregateMismatch`, never
/// reaching the Merkle or signature checks.
pub proof fn lemma_tampered_aggregate_detected(valid: VerifyInstruction, tampered: VerifyInstruction)
    requires
        valid.aggregate_ok(),
        tampered.commitment.did_hash == valid.commitment.did_hash,
        tampered.commitment.credential_root == valid.commitment.credential_root,
        tampered.commitment.zk_commitment == valid.commitment.zk_commitment,
        tampered.commitment.aggregate_commitment@ != valid.commitment.aggregate_commitment@,
    ensures
        verify_outcome(tampered) == Err::<(), DidCommitmentError>(DidCommitmentError::AggregateMismatch),
{
    assert(tampered.commitment.aggregate_preimage() == valid.commitment.aggregate_preimage());
}

} // verus!
