//! The root that a Merkle proof leads to.

use vstd::prelude::*;
use vstd::arithmetic::power2::{lemma_pow2_pos, lemma_pow2_unfold, pow2};
use crate::hash::{hashv, keccak_hashv};
use crate::keys::Node;

verus! {

/// The parent of `current` and `sibling`. The parent is the digest of its left
/// child followed by its right child; `current_is_right` tells on which side
/// `current` stands.
pub open spec fn parent_of(current: Node, sibling: Node, current_is_right: bool) -> Node {
    if current_is_right {
        keccak_hashv(sibling@, current@)
    } else {
        keccak_hashv(current@, sibling@)
    }
}

/// The root that `proof` leads to from `leaf`.
///
/// The proof lists the siblings on the way up, the leaf's own sibling first.
/// At each level the lowest bit of `index` tells whether the node reached so
/// far is a right child, and the rest of `index` is the node's index one level
/// up. An empty proof leads to the leaf itself.
pub open spec fn recomputed_root(leaf: Node, proof: Seq<Node>, index: nat) -> Node
    decreases proof.len(),
{
    if proof.len() == 0 {
        leaf
    } else {
        recomputed_root(
            parent_of(leaf, proof[0], index % 2 == 1),
            proof.drop_first(),
            index / 2,
        )
    }
}

/// Recomputes the root of the tree from `leaf`, the siblings on its way up
/// and the leaf's index. Every input gives a root: whether it is the right
/// one is for the caller to test.
pub fn recompute(leaf: Node, proof: &[Node], index: u32) -> (root: Node)
    ensures
        root == recomputed_root(leaf, proof@, index as nat),
{
    let mut node: Node = leaf;
    let mut rest: u32 = index;
    let mut i: usize = 0;
    assert(proof@.skip(0) == proof@);
    while i < proof.len()
        invariant
            i <= proof.len(),
            recomputed_root(leaf, proof@, index as nat) == recomputed_root(
                node,
                proof@.skip(i as int),
                rest as nat,
            ),
        decreases proof.len() - i,
    {
        let sibling: &Node = &proof[i];
        assert(proof@.skip(i as int)[0] == proof@[i as int]);
        assert(proof@.skip(i as int).drop_first() == proof@.skip(i + 1));
        if rest % 2 == 0 {
            node = hashv(node.as_slice(), sibling.as_slice());
        } else {
            node = hashv(sibling.as_slice(), node.as_slice());
        }
        rest = rest / 2;
        i += 1;
    }
    node
}

/// Whether the node at `level` on the way up from the leaf at `index` is a
/// right child: the bit of `index` at that level.
pub open spec fn is_right_child(index: nat, level: nat) -> bool
    decreases level,
{
    if level == 0 {
        index % 2 == 1
    } else {
        is_right_child(index / 2, (level - 1) as nat)
    }
}

/// The node that is reached at `level` on the way up from `leaf`; level zero
/// is the leaf itself.
pub open spec fn node_at(leaf: Node, proof: Seq<Node>, index: nat, level: int) -> Node {
    recomputed_root(leaf, proof.take(level), index)
}

/// The node reached at a level above the leaf is the node reached one level
/// lower from the leaf's parent, with the rest of the proof and of the index.
proof fn lemma_one_level_up(leaf: Node, proof: Seq<Node>, index: nat, level: int)
    requires
        1 <= level <= proof.len(),
    ensures
        node_at(leaf, proof, index, level) == node_at(
            parent_of(leaf, proof[0], index % 2 == 1),
            proof.drop_first(),
            index / 2,
            level - 1,
        ),
{
    assert(proof.take(level).drop_first() == proof.drop_first().take(level - 1));
}

/// Each level of a proof follows its own bit of the index: the node reached
/// one level up is the parent of the node reached so far and the sibling at
/// that level, the node on the right if the bit of the index at that level is
/// set.
pub proof fn law_each_level_follows_its_bit(leaf: Node, proof: Seq<Node>, index: nat, level: int)
    requires
        0 <= level < proof.len(),
    ensures
        node_at(leaf, proof, index, level + 1) == parent_of(
            node_at(leaf, proof, index, level),
            proof[level],
            is_right_child(index, level as nat),
        ),
        node_at(leaf, proof, index, 0) == leaf,
        node_at(leaf, proof, index, proof.len() as int) == recomputed_root(leaf, proof, index),
    decreases level,
{
    assert(proof.take(0) =~= Seq::<Node>::empty());
    assert(proof.take(proof.len() as int) =~= proof);
    let parent = parent_of(leaf, proof[0], index % 2 == 1);
    lemma_one_level_up(leaf, proof, index, level + 1);
    if level == 0 {
        assert(proof.drop_first().take(0) =~= Seq::<Node>::empty());
    } else {
        lemma_one_level_up(leaf, proof, index, level);
        law_each_level_follows_its_bit(parent, proof.drop_first(), index / 2, level - 1);
    }
}

/// For an index of 32 bits, the bit at a level is the bit that a shift by the
/// level brings to the lowest place; the levels from 32 on have no bit set.
pub proof fn law_bit_is_shift(index: u32, level: u32)
    ensures
        level < 32 ==> is_right_child(index as nat, level as nat) == ((index >> level) & 1 == 1),
        level >= 32 ==> !is_right_child(index as nat, level as nat),
    decreases level,
{
    if level == 0 {
        assert((index >> 0u32) & 1 == index % 2) by (bit_vector);
    } else {
        let half: u32 = index / 2;
        let below: u32 = (level - 1) as u32;
        law_bit_is_shift(half, below);
        if level < 32 {
            assert((index >> level) & 1 == (half >> below) & 1) by (bit_vector)
                requires
                    half == index / 2,
                    0 < level < 32,
                    below == level - 1,
            ;
        } else if level == 32 {
            assert((half >> 31u32) & 1 == 0) by (bit_vector)
                requires
                    half == index / 2,
            ;
        }
    }
}

/// The level above `nodes` in a tree: each node is the parent of two
/// neighbours, the one at the even index on the left.
pub open spec fn level_above(nodes: Seq<Node>) -> Seq<Node> {
    Seq::new(
        (nodes.len() / 2) as nat,
        |i: int| parent_of(nodes[2 * i], nodes[2 * i + 1], false),
    )
}

/// The root of the tree that is built over `leaves` level by level. It is
/// meant for a number of leaves that is a power of two.
pub open spec fn tree_root(leaves: Seq<Node>) -> Node
    decreases leaves.len(),
{
    if leaves.len() <= 1 {
        leaves[0]
    } else {
        tree_root(level_above(leaves))
    }
}

/// The index of the other child of the parent of the node at `index`.
pub open spec fn sibling_index(index: nat) -> nat {
    if index % 2 == 0 {
        index + 1
    } else {
        (index - 1) as nat
    }
}

/// The proof for the leaf at `index` in the tree over `leaves`: the sibling
/// of the leaf, then the sibling of its parent, and so on up to the two
/// children of the root.
pub open spec fn tree_proof(leaves: Seq<Node>, index: nat) -> Seq<Node>
    decreases leaves.len(),
{
    if leaves.len() <= 1 {
        Seq::empty()
    } else {
        seq![leaves[sibling_index(index) as int]] + tree_proof(level_above(leaves), index / 2)
    }
}

/// A proof that is built for a leaf of a tree leads from that leaf to the
/// root of the tree: for every tree of `pow2(depth)` leaves and every index
/// into them, the proof has `depth` siblings and `recomputed_root` gives the
/// tree's root.
pub proof fn law_proof_round_trip(leaves: Seq<Node>, depth: nat, index: nat)
    requires
        leaves.len() == pow2(depth),
        index < leaves.len(),
    ensures
        tree_proof(leaves, index).len() == depth,
        recomputed_root(leaves[index as int], tree_proof(leaves, index), index) == tree_root(
            leaves,
        ),
    decreases depth,
{
    if depth == 0 {
        assert(pow2(0) == 1) by {
            vstd::arithmetic::power2::lemma2_to64();
        }
    } else {
        lemma_pow2_unfold(depth);
        let above = level_above(leaves);
        let proof = tree_proof(leaves, index);
        let rest = tree_proof(above, index / 2);
        law_proof_round_trip(above, (depth - 1) as nat, index / 2);
        assert(proof.drop_first() == rest);
    }
}

/// Whether the two pairs of nodes are different and have the same parent: a
/// collision of the hash.
pub open spec fn colliding(left: Node, right: Node, other_left: Node, other_right: Node) -> bool {
    &&& left != other_left || right != other_right
    &&& parent_of(left, right, false) == parent_of(other_left, other_right, false)
}

/// Whether the hash has a collision on pairs of nodes.
pub open spec fn collision_exists() -> bool {
    exists|left: Node, right: Node, other_left: Node, other_right: Node|
        colliding(left, right, other_left, other_right)
}

/// Two proofs of the same length that start from different nodes, or differ
/// themselves, lead to the same root under one index only through a
/// collision.
proof fn lemma_same_root_collides(
    leaf: Node,
    proof: Seq<Node>,
    other_leaf: Node,
    other_proof: Seq<Node>,
    index: nat,
)
    requires
        proof.len() == other_proof.len(),
        leaf != other_leaf || proof != other_proof,
        recomputed_root(leaf, proof, index) == recomputed_root(other_leaf, other_proof, index),
    ensures
        collision_exists(),
    decreases proof.len(),
{
    if proof.len() == 0 {
        assert(proof =~= other_proof);
    } else {
        let right = index % 2 == 1;
        let node = parent_of(leaf, proof[0], right);
        let other_node = parent_of(other_leaf, other_proof[0], right);
        if leaf == other_leaf && proof[0] == other_proof[0] {
            if proof.drop_first() == other_proof.drop_first() {
                assert(proof =~= seq![proof[0]] + proof.drop_first());
                assert(other_proof =~= seq![other_proof[0]] + other_proof.drop_first());
            }
            lemma_same_root_collides(
                node,
                proof.drop_first(),
                other_node,
                other_proof.drop_first(),
                index / 2,
            );
        } else if node == other_node {
            if right {
                assert(colliding(proof[0], leaf, other_proof[0], other_leaf));
            } else {
                assert(colliding(leaf, proof[0], other_leaf, other_proof[0]));
            }
        } else {
            lemma_same_root_collides(
                node,
                proof.drop_first(),
                other_node,
                other_proof.drop_first(),
                index / 2,
            );
        }
    }
}

/// Changing a proof changes the root, short of a collision of the hash: if
/// two different proofs of one length lead from one leaf, under one index, to
/// the same root, then two different pairs of nodes have the same parent.
pub proof fn law_changed_proof_changes_root(
    leaf: Node,
    proof: Seq<Node>,
    other_proof: Seq<Node>,
    index: nat,
)
    requires
        proof.len() == other_proof.len(),
        proof != other_proof,
        recomputed_root(leaf, proof, index) == recomputed_root(leaf, other_proof, index),
    ensures
        collision_exists(),
{
    lemma_same_root_collides(leaf, proof, leaf, other_proof, index);
}

/// Two different nodes are led to the same root by one proof, under whatever
/// indices, only through a collision.
proof fn lemma_different_nodes_collide(
    node: Node,
    other_node: Node,
    proof: Seq<Node>,
    index: nat,
    other_index: nat,
)
    requires
        node != other_node,
        recomputed_root(node, proof, index) == recomputed_root(other_node, proof, other_index),
    ensures
        collision_exists(),
    decreases proof.len(),
{
    if proof.len() > 0 {
        let sibling = proof[0];
        let right = index % 2 == 1;
        let other_right = other_index % 2 == 1;
        let parent = parent_of(node, sibling, right);
        let other_parent = parent_of(other_node, sibling, other_right);
        if parent == other_parent {
            if right && other_right {
                assert(colliding(sibling, node, sibling, other_node));
            } else if right {
                assert(colliding(sibling, node, other_node, sibling));
            } else if other_right {
                assert(colliding(node, sibling, sibling, other_node));
            } else {
                assert(colliding(node, sibling, other_node, sibling));
            }
        } else {
            lemma_different_nodes_collide(
                parent,
                other_parent,
                proof.drop_first(),
                index / 2,
                other_index / 2,
            );
        }
    }
}

/// Changing the index changes the root, short of a collision of the hash and
/// of a node that is its own sibling: if one proof leads from one leaf to the
/// same root under two indices, and at some level the two indices put the
/// node on different sides of a sibling that differs from it, then two
/// different pairs of nodes have the same parent.
///
/// Where the node and its sibling are the same, their order does not matter,
/// and the root is the same on either side.
pub proof fn law_changed_index_changes_root(
    leaf: Node,
    proof: Seq<Node>,
    index: nat,
    other_index: nat,
    level: int,
)
    requires
        0 <= level < proof.len(),
        is_right_child(index, level as nat) != is_right_child(other_index, level as nat),
        node_at(leaf, proof, index, level) != proof[level],
        recomputed_root(leaf, proof, index) == recomputed_root(leaf, proof, other_index),
    ensures
        collision_exists(),
    decreases proof.len(),
{
    let sibling = proof[0];
    let right = index % 2 == 1;
    let other_right = other_index % 2 == 1;
    let parent = parent_of(leaf, sibling, right);
    let other_parent = parent_of(leaf, sibling, other_right);
    if parent == other_parent {
        if right != other_right && leaf != sibling {
            if right {
                assert(colliding(sibling, leaf, leaf, sibling));
            } else {
                assert(colliding(leaf, sibling, sibling, leaf));
            }
        } else {
            lemma_one_level_up(leaf, proof, index, level);
            law_changed_index_changes_root(
                parent,
                proof.drop_first(),
                index / 2,
                other_index / 2,
                level - 1,
            );
        }
    } else {
        lemma_different_nodes_collide(
            parent,
            other_parent,
            proof.drop_first(),
            index / 2,
            other_index / 2,
        );
    }
}

} // verus!
