//! Merkle proof verification: reconstructing a root from a leaf and a
//! sibling path, and the bottom-up tree model the reconstruction agrees with.

use vstd::prelude::*;
use crate::hash::keccak256_of;
use crate::hash::keccak256;
use crate::hash::push_hash;

verus! {

/// The hash of an interior tree node: keccak-256 of the two children,
/// left first.
pub open spec fn node_hash(left: Seq<u8>, right: Seq<u8>) -> Seq<u8> {
    keccak256_of(left + right)
}

/// The root reconstructed from `leaf` and the sibling hashes in `path`,
/// bottom of the tree first.  At each level the lowest bit of `index` says
/// on which side the running hash stands; the index is then halved.
pub open spec fn merkle_root_spec(leaf: Seq<u8>, path: Seq<Seq<u8>>, index: nat) -> Seq<u8>
    decreases path.len(),
{
    if path.len() == 0 {
        leaf
    } else {
        let combined = if index % 2 == 0 {
            node_hash(leaf, path[0])
        } else {
            node_hash(path[0], leaf)
        };
        merkle_root_spec(combined, path.drop_first(), index / 2)
    }
}

/// The byte sequences of a sequence of hashes.
pub open spec fn hash_seq(hs: Seq<crate::hash::Hash>) -> Seq<Seq<u8>> {
    hs.map_values(|h: crate::hash::Hash| h@)
}

/// Reconstruct the candidate Merkle root from `leaf`, the sibling hashes in
/// `path` (leaf level upward) and the leaf's 0-based `index`.
///
/// This function never fails: an empty path returns `leaf` unchanged, and no
/// consistency between `index`'s bit length and the path length is enforced;
/// an inconsistent pair still yields some root deterministically.  Whether
/// the result is the expected root is the caller's comparison to make.
pub fn compute_merkle_root(leaf: crate::hash::Hash, path: &[crate::hash::Hash], index: u64) -> (r: crate::hash::Hash)
    ensures
        r@ == merkle_root_spec(leaf@, hash_seq(path@), index as nat),
{
    let mut computed = leaf;
    let mut idx = index;
    let mut i: usize = 0;
    proof {
        assert(hash_seq(path@).skip(0) =~= hash_seq(path@));
    }
    while i < path.len()
        invariant
            i <= path@.len(),
            merkle_root_spec(computed@, hash_seq(path@).skip(i as int), idx as nat)
                == merkle_root_spec(leaf@, hash_seq(path@), index as nat),
        decreases path@.len() - i,
    {
        let sibling = path[i];
        let mut buf: Vec<u8> = Vec::new();
        if idx % 2 == 0 {
            push_hash(&mut buf, &computed);
            push_hash(&mut buf, &sibling);
            proof {
                assert(buf@ =~= computed@ + sibling@);
            }
        } else {
            push_hash(&mut buf, &sibling);
            push_hash(&mut buf, &computed);
            proof {
                assert(buf@ =~= sibling@ + computed@);
            }
        }
        let next = keccak256(buf.as_slice());
        proof {
            let s = hash_seq(path@);
            assert(s.skip(i as int)[0] == path@[i as int]@);
            assert(s.skip(i as int).drop_first() =~= s.skip(i + 1));
        }
        computed = next;
        idx = idx / 2;
        i = i + 1;
    }
    proof {
        assert(hash_seq(path@).skip(path@.len() as int) =~= Seq::<Seq<u8>>::empty());
    }
    computed
}

/// An empty proof is the degenerate single-leaf tree: the reconstructed root
/// is the leaf itself, whatever the index.
pub proof fn lemma_empty_path_keeps_leaf(leaf: Seq<u8>, index: nat)
    ensures
        merkle_root_spec(leaf, Seq::<Seq<u8>>::empty(), index) == leaf,
{
}

/// One level up in a bottom-up tree build: adjacent nodes are paired, left
/// sibling first.
pub open spec fn hash_level(level: Seq<Seq<u8>>) -> Seq<Seq<u8>> {
    Seq::new((level.len() / 2) as nat, |j: int| node_hash(level[2 * j], level[2 * j + 1]))
}

/// Whether `n` is a power of two.
pub open spec fn is_pow2(n: nat) -> bool
    decreases n,
{
    if n == 0 {
        false
    } else if n == 1 {
        true
    } else {
        n % 2 == 0 && is_pow2(n / 2)
    }
}

/// The root of a complete tree built bottom-up from `level`, pairing
/// adjacent nodes until one remains.
pub open spec fn tree_root(level: Seq<Seq<u8>>) -> Seq<u8>
    decreases level.len(),
{
    if level.len() <= 1 {
        if level.len() == 1 {
            level[0]
        } else {
            Seq::empty()
        }
    } else {
        tree_root(hash_level(level))
    }
}

/// The position of the sibling of node `i` within its level.
pub open spec fn sibling_index(i: nat) -> nat {
    if i % 2 == 0 {
        i + 1
    } else {
        (i - 1) as nat
    }
}

/// The canonical sibling path for the node at position `i` of `level`:
/// its sibling at each level, bottom of the tree first.
pub open spec fn sibling_path(level: Seq<Seq<u8>>, i: nat) -> Seq<Seq<u8>>
    decreases level.len(),
{
    if level.len() <= 1 {
        Seq::empty()
    } else {
        seq![level[sibling_index(i) as int]] + sibling_path(hash_level(level), i / 2)
    }
}

/// Merkle round trip: in a complete tree built bottom-up from a power-of-two
/// number of leaves, reconstructing the root from any leaf and its canonical
/// sibling path yields the root of the built tree.
pub proof fn lemma_merkle_round_trip(leaves: Seq<Seq<u8>>, i: nat)
    requires
        is_pow2(leaves.len()),
        i < leaves.len(),
    ensures
        merkle_root_spec(leaves[i as int], sibling_path(leaves, i), i) == tree_root(leaves),
    decreases leaves.len(),
{
    if leaves.len() == 1 {
        assert(i == 0);
        assert(sibling_path(leaves, i) =~= Seq::<Seq<u8>>::empty());
    } else {
        let next = hash_level(leaves);
        let i2 = i / 2;
        assert(leaves.len() % 2 == 0);
        assert(next.len() == leaves.len() / 2);
        assert(i2 < next.len());
        let sib = sibling_index(i);
        assert(sib < leaves.len());
        if i % 2 == 0 {
            assert(i == 2 * i2);
            assert(next[i2 as int] == node_hash(leaves[i as int], leaves[i as int + 1]));
            assert(leaves[sib as int] == leaves[i as int + 1]);
        } else {
            assert(i == 2 * i2 + 1);
            assert(next[i2 as int] == node_hash(leaves[i as int - 1], leaves[i as int]));
            assert(leaves[sib as int] == leaves[i as int - 1]);
        }
        let p = sibling_path(leaves, i);
        assert(p == seq![leaves[sib as int]] + sibling_path(next, i2));
        assert(p[0] == leaves[sib as int]);
        assert(p.drop_first() =~= sibling_path(next, i2));
        lemma_merkle_round_trip(next, i2);
        assert(merkle_root_spec(leaves[i as int], p, i)
            == merkle_root_spec(next[i2 as int], sibling_path(next, i2), i2));
    }
}

} // verus!
