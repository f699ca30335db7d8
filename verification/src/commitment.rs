//! The commitment tuple and its aggregation rule.

use vstd::prelude::*;
use crate::hash::keccak256_of;
use crate::hash::keccak256;
use crate::hash::push_hash;

verus! {

/// The four hashes a verification request commits to.  The intended invariant,
/// checked by the verification pipeline and never assumed, is that
/// `aggregate_commitment` equals the keccak-256 digest of `did_hash`,
/// `credential_root` and `zk_commitment` concatenated in that order.
#[derive(Clone, Copy, Debug, PartialEq, Eq)]
pub struct CommitmentTuple {
    pub did_hash: crate::hash::Hash,
    pub credential_root: crate::hash::Hash,
    pub zk_commitment: crate::hash::Hash,
    pub aggregate_commitment: crate::hash::Hash,
}

impl CommitmentTuple {
    /// The byte string the aggregate commitment is a digest of: the three
    /// input hashes concatenated in their fixed order.
    pub open spec fn aggregate_preimage(self) -> Seq<u8> {
        self.did_hash@ + self.credential_root@ + self.zk_commitment@
    }

    /// What the aggregate commitment must recompute to.
    pub open spec fn aggregate_spec(self) -> Seq<u8> {
        keccak256_of(self.aggregate_preimage())
    }

    /// Whether the recorded aggregate commitment matches the recomputation.
    pub open spec fn aggregate_consistent(self) -> bool {
        self.aggregate_commitment@ == self.aggregate_spec()
    }

    /// Recompute the aggregate commitment: one keccak-256 digest over
    /// `did_hash`, `credential_root` and `zk_commitment`, in that order.
    ///
    /// The result is a pure function of the three input fields, so any two
    /// calls on tuples with equal input fields return the same hash.
    pub fn recompute_aggregate(&self) -> (r: crate::hash::Hash)
        ensures
            r@ == self.aggregate_spec(),
    {
        let mut buf: Vec<u8> = Vec::new();
        push_hash(&mut buf, &self.did_hash);
        push_hash(&mut buf, &self.credential_root);
        push_hash(&mut buf, &self.zk_commitment);
        keccak256(buf.as_slice())
    }
}

/// Recomputing the aggregate is deterministic: two results for one and the
/// same tuple are equal, byte for byte.
pub proof fn lemma_recompute_aggregate_deterministic(t: CommitmentTuple, a: crate::hash::Hash, b: crate::hash::Hash)
    requires
        a@ == t.aggregate_spec(),
        b@ == t.aggregate_spec(),
    ensures
        a == b,
{
    assert(a@ =~= b@);
}

/// Swapping `did_hash` and `credential_root` in a tuple whose two fields
/// differ changes the byte string handed to keccak-256.  (That the digests
/// themselves then differ is collision resistance, a cryptographic property
/// outside what these contracts state.)
pub proof fn lemma_swap_changes_preimage(t: CommitmentTuple, swapped: CommitmentTuple)
    requires
        swapped.did_hash == t.credential_root,
        swapped.credential_root == t.did_hash,
        swapped.zk_commitment == t.zk_commitment,
        t.did_hash@ != t.credential_root@,
    ensures
        swapped.aggregate_preimage() != t.aggregate_preimage(),
{
    let d = t.did_hash@;
    let r = t.credential_root@;
    assert(d.len() == 32 && r.len() == 32);
    assert(exists|k: int| 0 <= k < 32 && d[k] != r[k]) by {
        if forall|k: int| 0 <= k < 32 ==> d[k] == r[k] {
            assert(d =~= r);
        }
    }
    let k = choose|k: int| 0 <= k < 32 && d[k] != r[k];
    assert(t.aggregate_preimage()[k] == d[k]);
    assert(swapped.aggregate_preimage()[k] == r[k]);
}

} // verus!
