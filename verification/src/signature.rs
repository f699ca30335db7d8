//! Strict Ed25519 signature checking over the aggregate commitment, and the
//! signing helper its tests and callers pair it with.

use vstd::prelude::*;
use ed25519_dalek::Signer;
use crate::commitment::CommitmentTuple;

verus! {

/// Whether `signature` is a strict (non-malleable) Ed25519 signature over
/// `message` under `public_key`: the key must decode to a valid, non-weak
/// curve point, the signature must be canonically encoded, and the
/// verification equation must hold.  A deterministic function of the three
/// byte strings alone.
pub uninterp spec fn ed25519_verifies_strict(
    public_key: Seq<u8>,
    signature: Seq<u8>,
    message: Seq<u8>,
) -> bool;

/// The Ed25519 signature over `message` by the secret key `secret`: Ed25519
/// signing is deterministic, a function of the key and message bytes alone.
pub uninterp spec fn ed25519_signature_of(secret: Seq<u8>, message: Seq<u8>) -> Seq<u8>;

/// Relies on `ed25519_dalek::VerifyingKey::verify_strict`, with
/// `VerifyingKey::from_bytes` and `Signature::from_bytes` converting the raw
/// bytes: the outcome is a pure function of key, signature and message bytes,
/// and a key that does not decode to a valid curve point fails.
#[verifier::external_body]
fn ed25519_verify_strict(public_key: &[u8; 32], signature: &[u8; 64], message: &[u8; 32]) -> (r: bool)
    ensures
        r == ed25519_verifies_strict(public_key@, signature@, message@),
{
    let verifying_key = match ed25519_dalek::VerifyingKey::from_bytes(public_key) {
        Ok(k) => k,
        Err(_) => return false,
    };
    let sig = ed25519_dalek::Signature::from_bytes(signature);
    verifying_key.verify_strict(message, &sig).is_ok()
}

/// Check a strict Ed25519 signature over a 32-byte message.  Malformed keys
/// or signatures and well-formed but cryptographically failing signatures
/// alike yield `false`.
pub fn verify_signature(public_key: &[u8; 32], signature: &[u8; 64], message: &crate::hash::Hash) -> (r: bool)
    ensures
        r == ed25519_verifies_strict(public_key@, signature@, message@),
{
    ed25519_verify_strict(public_key, signature, message)
}

/// Sign a tuple's recorded aggregate commitment with the Ed25519 secret key
/// `signing_key`, returning the 64 signature bytes.
///
/// Relies on `ed25519_dalek::SigningKey::from_bytes` (every 32-byte string is
/// a secret key) and `Signer::sign`: Ed25519 signing is deterministic, so the
/// signature depends on the key and message bytes alone.
#[verifier::external_body]
pub fn sign_commitment(commitment: &CommitmentTuple, signing_key: &[u8; 32]) -> (r: [u8; 64])
    ensures
        r@ == ed25519_signature_of(signing_key@, commitment.aggregate_commitment@),
{
    let key = ed25519_dalek::SigningKey::from_bytes(signing_key);
    key.sign(&commitment.aggregate_commitment).to_bytes()
}

} // verus!
