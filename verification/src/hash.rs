//! The 32-byte hash type and the keccak-256 digest it is produced by.

use vstd::prelude::*;
use sha3::Digest;
use sha3::Keccak256;

verus! {

/// A 32-byte hash, used both as a cryptographic digest and as a Merkle tree
/// node identifier.
pub type Hash = [u8; 32];

/// The keccak-256 digest of a byte string, as a 32-byte sequence.
pub uninterp spec fn keccak256_of(input: Seq<u8>) -> Seq<u8>;

/// Relies on `sha3::Keccak256` (through `digest::Digest::digest`): the digest
/// is a pure function of the input bytes alone.
#[verifier::external_body]
pub(crate) fn keccak256(input: &[u8]) -> (r: Hash)
    ensures
        r@ == keccak256_of(input@),
{
    Keccak256::digest(input).into()
}

/// Compare two hashes byte by byte.
pub(crate) fn hash_eq(a: &Hash, b: &Hash) -> (r: bool)
    ensures
        r == (a@ == b@),
{
    let mut i: usize = 0;
    while i < 32
        invariant
            i <= 32,
            forall|j: int| 0 <= j < i ==> a@[j] == b@[j],
        decreases 32 - i,
    {
        if a[i] != b[i] {
            return false;
        }
        i = i + 1;
    }
    proof {
        assert(a@ =~= b@);
    }
    true
}

/// Append the 32 bytes of `h` to `buf`.
pub(crate) fn push_hash(buf: &mut Vec<u8>, h: &Hash)
    ensures
        final(buf)@ == old(buf)@ + h@,
{
    let mut i: usize = 0;
    while i < 32
        invariant
            i <= 32,
            buf@ == old(buf)@ + h@.take(i as int),
        decreases 32 - i,
    {
        buf.push(h[i]);
        proof {
            assert(h@.take(i + 1) =~= h@.take(i as int).push(h@[i as int]));
        }
        i = i + 1;
    }
    proof {
        assert(h@.take(32) =~= h@);
    }
}

} // verus!
