//! End-to-end scenarios for the verification pipeline, with expected hashes
//! and signatures computed independently through sha3 and ed25519-dalek.

use did_commitment::CommitmentTuple;
use did_commitment::DidCommitmentError;
use did_commitment::VerifyInstruction;
use did_commitment::compute_merkle_root;
use did_commitment::error_code;
use did_commitment::sign_commitment;
use did_commitment::verify_commitment;
use did_commitment::verify_signature;
use ed25519_dalek::Signer;
use ed25519_dalek::SigningKey;
use sha3::Digest;
use sha3::Keccak256;

fn keccak2(a: &[u8; 32], b: &[u8; 32]) -> [u8; 32] {
    let mut hasher = Keccak256::new();
    hasher.update(a);
    hasher.update(b);
    hasher.finalize().into()
}

fn keccak3(a: &[u8; 32], b: &[u8; 32], c: &[u8; 32]) -> [u8; 32] {
    let mut hasher = Keccak256::new();
    hasher.update(a);
    hasher.update(b);
    hasher.update(c);
    hasher.finalize().into()
}

fn consistent_tuple(did: [u8; 32], root: [u8; 32], zk: [u8; 32]) -> CommitmentTuple {
    let aggregate = keccak3(&did, &root, &zk);
    CommitmentTuple {
        did_hash: did,
        credential_root: root,
        zk_commitment: zk,
        aggregate_commitment: aggregate,
    }
}

/// A request that passes all three checks: a 2-leaf tree whose root is the
/// credential root, leaf 0 with proof `[leaf 1]`, and a signature over the
/// aggregate by the key whose public half is in the request.
fn valid_request(secret: [u8; 32]) -> VerifyInstruction {
    let leaf0 = [0x11u8; 32];
    let leaf1 = [0x22u8; 32];
    let root = keccak2(&leaf0, &leaf1);
    let commitment = consistent_tuple([0xaau8; 32], root, [0xbbu8; 32]);
    let signing_key = SigningKey::from_bytes(&secret);
    let signature = signing_key.sign(&commitment.aggregate_commitment).to_bytes();
    VerifyInstruction {
        commitment,
        credential_leaf: leaf0,
        index: 0,
        merkle_proof: vec![leaf1],
        ed25519_public_key: signing_key.verifying_key().to_bytes(),
        ed25519_signature: signature,
    }
}

#[test]
fn recompute_aggregate_is_deterministic() {
    let tuple = consistent_tuple([1u8; 32], [2u8; 32], [3u8; 32]);
    let first = tuple.recompute_aggregate();
    let second = tuple.recompute_aggregate();
    assert_eq!(first, second);
}

#[test]
fn recompute_aggregate_matches_keccak256() {
    let did = [7u8; 32];
    let root = [8u8; 32];
    let zk = [9u8; 32];
    let tuple = consistent_tuple(did, root, zk);
    assert_eq!(tuple.recompute_aggregate(), keccak3(&did, &root, &zk));
    assert_eq!(tuple.recompute_aggregate(), tuple.aggregate_commitment);
}

#[test]
fn swapping_did_and_root_changes_aggregate() {
    let tuple = consistent_tuple([1u8; 32], [2u8; 32], [3u8; 32]);
    let swapped = CommitmentTuple {
        did_hash: tuple.credential_root,
        credential_root: tuple.did_hash,
        zk_commitment: tuple.zk_commitment,
        aggregate_commitment: tuple.aggregate_commitment,
    };
    assert_ne!(tuple.recompute_aggregate(), swapped.recompute_aggregate());
}

#[test]
fn merkle_round_trip_four_leaves() {
    let leaves = [[10u8; 32], [20u8; 32], [30u8; 32], [40u8; 32]];
    let n01 = keccak2(&leaves[0], &leaves[1]);
    let n23 = keccak2(&leaves[2], &leaves[3]);
    let root = keccak2(&n01, &n23);
    let paths: [Vec<[u8; 32]>; 4] = [
        vec![leaves[1], n23],
        vec![leaves[0], n23],
        vec![leaves[3], n01],
        vec![leaves[2], n01],
    ];
    for i in 0..4u64 {
        let got = compute_merkle_root(leaves[i as usize], &paths[i as usize], i);
        assert_eq!(got, root, "leaf {} must reconstruct the root", i);
    }
}

#[test]
fn empty_proof_returns_leaf_for_any_index() {
    let leaf = [0x5au8; 32];
    for index in [0u64, 1, 2, 7, u64::MAX] {
        assert_eq!(compute_merkle_root(leaf, &[], index), leaf);
    }
}

#[test]
fn valid_request_verifies() {
    let request = valid_request([42u8; 32]);
    assert_eq!(verify_commitment(&request), Ok(()));
}

#[test]
fn tampered_aggregate_fails_first() {
    let mut request = valid_request([42u8; 32]);
    request.commitment.aggregate_commitment[17] ^= 0x01;
    assert_eq!(
        verify_commitment(&request),
        Err(DidCommitmentError::AggregateMismatch)
    );
}

#[test]
fn signature_over_matching_aggregate_passes() {
    let secret = [5u8; 32];
    let request = valid_request(secret);
    let signing_key = SigningKey::from_bytes(&secret);
    assert!(verify_signature(
        &signing_key.verifying_key().to_bytes(),
        &request.ed25519_signature,
        &request.commitment.aggregate_commitment,
    ));
}

#[test]
fn signature_reapplied_to_other_message_fails() {
    let secret = [5u8; 32];
    let valid = valid_request(secret);
    // A request consistent in aggregate and Merkle proof, but whose aggregate
    // differs from the one the signature was made over.
    let mut other = valid_request(secret);
    other.commitment.zk_commitment = [0xccu8; 32];
    other.commitment.aggregate_commitment = keccak3(
        &other.commitment.did_hash,
        &other.commitment.credential_root,
        &other.commitment.zk_commitment,
    );
    other.ed25519_signature = valid.ed25519_signature;
    assert_eq!(
        verify_commitment(&other),
        Err(DidCommitmentError::SignatureInvalid)
    );
}

#[test]
fn sign_commitment_matches_dalek_signature() {
    let secret = [13u8; 32];
    let tuple = consistent_tuple([4u8; 32], [5u8; 32], [6u8; 32]);
    let signing_key = SigningKey::from_bytes(&secret);
    let expected = signing_key.sign(&tuple.aggregate_commitment).to_bytes();
    assert_eq!(sign_commitment(&tuple, &secret), expected);
}

#[test]
fn end_to_end_two_leaf_scenario() {
    let l0 = [0x31u8; 32];
    let l1 = [0x32u8; 32];
    let root = keccak2(&l0, &l1);
    let h1 = [0x01u8; 32];
    let h3 = [0x03u8; 32];
    let commitment = consistent_tuple(h1, root, h3);
    let secret = [99u8; 32];
    let signing_key = SigningKey::from_bytes(&secret);
    let request = VerifyInstruction {
        commitment: commitment.clone(),
        credential_leaf: l0,
        index: 0,
        merkle_proof: vec![l1],
        ed25519_public_key: signing_key.verifying_key().to_bytes(),
        ed25519_signature: sign_commitment(&commitment, &secret),
    };
    assert_eq!(verify_commitment(&request), Ok(()));

    for byte in 0..32usize {
        let mut tampered = request.clone();
        tampered.merkle_proof[0][byte] ^= 0xff;
        assert_eq!(
            verify_commitment(&tampered),
            Err(DidCommitmentError::InvalidMerkleProof),
            "flipping proof byte {} must invalidate the Merkle proof",
            byte
        );
    }
}

#[test]
fn error_codes_are_stable() {
    assert_eq!(error_code(DidCommitmentError::AggregateMismatch), 0);
    assert_eq!(error_code(DidCommitmentError::InvalidMerkleProof), 1);
    assert_eq!(error_code(DidCommitmentError::SignatureInvalid), 2);
    assert_eq!(error_code(DidCommitmentError::DeserializeFailed), 3);
}
