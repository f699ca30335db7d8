//! The fixed binary layout of an inbound verification request, its verified
//! decoder, and the one-pass entry that decodes and verifies.
//!
//! The layout is fixed and ordered: the four commitment hashes, the
//! credential leaf, the leaf index as a little-endian 64-bit integer, the
//! sibling path as a little-endian 32-bit count followed by that many
//! 32-byte hashes, then the 32 public-key bytes and the 64 signature bytes.
//! Nothing may trail the signature.

use vstd::prelude::*;
use crate::commitment::CommitmentTuple;
use crate::errors::DidCommitmentError;
use crate::hash::keccak256_of;
use crate::instruction::VerifyInstruction;
use crate::instruction::verify_commitment;
use crate::merkle::merkle_root_spec;
use crate::signature::ed25519_verifies_strict;

verus! {

/// The value of an 8-byte little-endian integer.
pub open spec fn le_u64(b: Seq<u8>) -> int
    recommends
        b.len() == 8,
{
    b[0] + b[1] * 0x100 + b[2] * 0x1_0000 + b[3] * 0x100_0000 + b[4] * 0x1_0000_0000
        + b[5] * 0x100_0000_0000 + b[6] * 0x1_0000_0000_0000 + b[7] * 0x100_0000_0000_0000
}

/// The value of a 4-byte little-endian integer.
pub open spec fn le_u32(b: Seq<u8>) -> int
    recommends
        b.len() == 4,
{
    b[0] + b[1] * 0x100 + b[2] * 0x1_0000 + b[3] * 0x100_0000
}

/// The sibling-path count recorded in the wire bytes.
pub open spec fn wire_proof_count(data: Seq<u8>) -> int
    recommends
        data.len() >= 172,
{
    le_u32(data.subrange(168, 172))
}

/// Whether `data` is a well-formed request: long enough to hold the fixed
/// fields and the count, and exactly as long as the count demands.
pub open spec fn wire_well_formed(data: Seq<u8>) -> bool {
    &&& data.len() >= 172
    &&& data.len() == 268 + 32 * wire_proof_count(data)
}

/// The sibling hashes recorded in the wire bytes.
pub open spec fn wire_proof_hashes(data: Seq<u8>) -> Seq<Seq<u8>> {
    Seq::new(wire_proof_count(data) as nat, |j: int| data.subrange(172 + 32 * j, 172 + 32 * j + 32))
}

/// Whether the aggregate commitment recorded in the wire bytes recomputes.
pub open spec fn wire_aggregate_ok(data: Seq<u8>) -> bool {
    data.subrange(96, 128) == keccak256_of(
        data.subrange(0, 32) + data.subrange(32, 64) + data.subrange(64, 96),
    )
}

/// Whether the sibling path recorded in the wire bytes reconstructs the
/// recorded credential root.
pub open spec fn wire_merkle_ok(data: Seq<u8>) -> bool {
    merkle_root_spec(
        data.subrange(128, 160),
        wire_proof_hashes(data),
        le_u64(data.subrange(160, 168)) as nat,
    ) == data.subrange(32, 64)
}

/// Whether the recorded signature verifies strictly over the recorded
/// aggregate commitment under the recorded public key.
pub open spec fn wire_signature_ok(data: Seq<u8>) -> bool {
    ed25519_verifies_strict(
        data.subrange(data.len() - 96, data.len() - 64),
        data.subrange(data.len() - 64, data.len() as int),
        data.subrange(96, 128),
    )
}

/// The outcome owed for raw request bytes: a framing failure, then the three
/// verification checks in their fixed order.
pub open spec fn wire_outcome(data: Seq<u8>) -> Result<(), DidCommitmentError> {
    if !wire_well_formed(data) {
        Err(DidCommitmentError::DeserializeFailed)
    } else if !wire_aggregate_ok(data) {
        Err(DidCommitmentError::AggregateMismatch)
    } else if !wire_merkle_ok(data) {
        Err(DidCommitmentError::InvalidMerkleProof)
    } else if !wire_signature_ok(data) {
        Err(DidCommitmentError::SignatureInvalid)
    } else {
        Ok(())
    }
}

/// Copy 32 bytes out of `data` at `off`.
fn read_hash(data: &[u8], off: usize) -> (h: crate::hash::Hash)
    requires
        off + 32 <= data@.len(),
    ensures
        h@ == data@.subrange(off as int, off as int + 32),
{
    let n: usize = data.len();
    let mut h: [u8; 32] = [0u8; 32];
    let mut i: usize = 0;
    while i < 32
        invariant
            i <= 32,
            off + 32 <= n == data@.len(),
            forall|j: int| 0 <= j < i ==> h@[j] == data@[off + j],
        decreases 32 - i,
    {
        h[i] = data[off + i];
        i = i + 1;
    }
    proof {
        assert(h@ =~= data@.subrange(off as int, off as int + 32));
    }
    h
}

/// Copy 64 bytes out of `data` at `off`.
fn read_signature_bytes(data: &[u8], off: usize) -> (s: [u8; 64])
    requires
        off + 64 <= data@.len(),
    ensures
        s@ == data@.subrange(off as int, off as int + 64),
{
    let n: usize = data.len();
    let mut s: [u8; 64] = [0u8; 64];
    let mut i: usize = 0;
    while i < 64
        invariant
            i <= 64,
            off + 64 <= n == data@.len(),
            forall|j: int| 0 <= j < i ==> s@[j] == data@[off + j],
        decreases 64 - i,
    {
        s[i] = data[off + i];
        i = i + 1;
    }
    proof {
        assert(s@ =~= data@.subrange(off as int, off as int + 64));
    }
    s
}

/// Read an 8-byte little-endian integer out of `data` at `off`.
fn read_u64_le(data: &[u8], off: usize) -> (r: u64)
    requires
        off + 8 <= data@.len(),
    ensures
        r == le_u64(data@.subrange(off as int, off as int + 8)),
{
    let r = (data[off] as u64) + (data[off + 1] as u64) * 0x100 + (data[off + 2] as u64) * 0x1_0000
        + (data[off + 3] as u64) * 0x100_0000 + (data[off + 4] as u64) * 0x1_0000_0000
        + (data[off + 5] as u64) * 0x100_0000_0000 + (data[off + 6] as u64) * 0x1_0000_0000_0000
        + (data[off + 7] as u64) * 0x100_0000_0000_0000;
    proof {
        let b = data@.subrange(off as int, off as int + 8);
        assert(forall|k: int| 0 <= k < 8 ==> b[k] == data@[off + k]);
    }
    r
}

/// Read a 4-byte little-endian integer out of `data` at `off`.
fn read_u32_le(data: &[u8], off: usize) -> (r: u32)
    requires
        off + 4 <= data@.len(),
    ensures
        r == le_u32(data@.subrange(off as int, off as int + 4)),
{
    let r = (data[off] as u32) + (data[off + 1] as u32) * 0x100 + (data[off + 2] as u32) * 0x1_0000
        + (data[off + 3] as u32) * 0x100_0000;
    proof {
        let b = data@.subrange(off as int, off as int + 4);
        assert(forall|k: int| 0 <= k < 4 ==> b[k] == data@[off + k]);
    }
    r
}

/// Decode raw request bytes into a [`VerifyInstruction`].  Succeeds exactly
/// on well-formed bytes, and then every decoded field equals the bytes it
/// was read from; anything else fails with `DeserializeFailed`.
pub fn decode_instruction(data: &[u8]) -> (r: Result<VerifyInstruction, DidCommitmentError>)
    ensures
        match r {
            Ok(instr) => {
                &&& wire_well_formed(data@)
                &&& instr.commitment.did_hash@ == data@.subrange(0, 32)
                &&& instr.commitment.credential_root@ == data@.subrange(32, 64)
                &&& instr.commitment.zk_commitment@ == data@.subrange(64, 96)
                &&& instr.commitment.aggregate_commitment@ == data@.subrange(96, 128)
                &&& instr.credential_leaf@ == data@.subrange(128, 160)
                &&& instr.index == le_u64(data@.subrange(160, 168))
                &&& instr.proof_hashes() == wire_proof_hashes(data@)
                &&& instr.ed25519_public_key@ == data@.subrange(
                    data@.len() - 96,
                    data@.len() - 64,
                )
                &&& instr.ed25519_signature@ == data@.subrange(
                    data@.len() - 64,
                    data@.len() as int,
                )
            },
            Err(e) => e == DidCommitmentError::DeserializeFailed && !wire_well_formed(data@),
        },
{
    if data.len() < 172 {
        return Err(DidCommitmentError::DeserializeFailed);
    }
    let count = read_u32_le(data, 168);
    let expected: u64 = 268u64 + 32u64 * (count as u64);
    if (data.len() as u64) != expected {
        return Err(DidCommitmentError::DeserializeFailed);
    }
    let count_us: usize = count as usize;
    proof {
        assert(wire_proof_count(data@) == count as int);
        assert(data@.len() == 268 + 32 * (count as int));
    }
    let did_hash = read_hash(data, 0);
    let credential_root = read_hash(data, 32);
    let zk_commitment = read_hash(data, 64);
    let aggregate_commitment = read_hash(data, 96);
    let credential_leaf = read_hash(data, 128);
    let index = read_u64_le(data, 160);
    let mut merkle_proof: Vec<crate::hash::Hash> = Vec::new();
    let total: usize = data.len();
    let mut j: usize = 0;
    while j < count_us
        invariant
            j <= count_us,
            total == data@.len(),
            data@.len() == 268 + 32 * (count_us as int),
            merkle_proof@.len() == j,
            forall|k: int| 0 <= k < j ==> merkle_proof@[k]@ == data@.subrange(
                172 + 32 * k,
                172 + 32 * k + 32,
            ),
        decreases count_us - j,
    {
        let h = read_hash(data, 172 + 32 * j);
        merkle_proof.push(h);
        j = j + 1;
    }
    let tail: usize = 172 + 32 * count_us;
    let ed25519_public_key = read_hash(data, tail);
    let ed25519_signature = read_signature_bytes(data, tail + 32);
    let instr = VerifyInstruction {
        commitment: CommitmentTuple { did_hash, credential_root, zk_commitment, aggregate_commitment },
        credential_leaf,
        index,
        merkle_proof,
        ed25519_public_key,
        ed25519_signature,
    };
    proof {
        assert(instr.proof_hashes() =~= wire_proof_hashes(data@));
    }
    Ok(instr)
}

/// Decode raw request bytes and verify the decoded request: the one entry a
/// host adapter needs.  The outcome is a pure function of the bytes: a
/// framing error on malformed bytes, otherwise the pipeline's verdict.
pub fn process_instruction_data(data: &[u8]) -> (r: Result<(), DidCommitmentError>)
    ensures
        r == wire_outcome(data@),
{
    let instr = match decode_instruction(data) {
        Ok(instr) => instr,
        Err(e) => {
            return Err(e);
        },
    };
    proof {
        assert(instr.aggregate_ok() == wire_aggregate_ok(data@)) by {
            assert(instr.commitment.aggregate_preimage() == data@.subrange(0, 32)
                + data@.subrange(32, 64) + data@.subrange(64, 96));
        }
        assert(instr.merkle_ok() == wire_merkle_ok(data@));
        assert(instr.signature_ok() == wire_signature_ok(data@));
    }
    verify_commitment(&instr)
}

} // verus!
