//! Inclusion of every stored leaf: the canonical padded tree.
//!
//! The incremental accumulator never stores its leaves, so this module
//! relates it to the canonical complete binary tree over the append
//! history padded with empty leaves. Its main result: after any sequence
//! of appends, every appended leaf verifies against the accumulator's
//! root with its canonical sibling path.

use vstd::prelude::*;
use vstd::arithmetic::power2::{pow2, lemma_pow2_unfold, lemma_pow2_pos};
use vstd::arithmetic::div_mod::{
    lemma_fundamental_div_mod, lemma_div_denominator, lemma_fundamental_div_mod_converse_div,
    lemma_basic_div,
};
use crate::merkle::{
    TreeModel, node_hash, lemma_node_hash_symmetric, spec_tree_add, spec_tree_add_seq,
    spec_add_level, spec_path_at, spec_path_root, lemma_tree_add_seq_push,
};

verus! {

/// The empty-subtree hashes form a chain: each level pairs the one below
/// with itself.
pub open spec fn zeros_wf(zeros: Seq<Seq<u8>>) -> bool {
    forall|i: int|
        1 <= i < zeros.len() ==> #[trigger] zeros[i] == node_hash(zeros[i - 1], zeros[i - 1])
}

/// The node at `level` and position `pos` of the canonical complete tree
/// over `leaves`, padded on the right with empty leaves.
pub open spec fn layer_node(
    leaves: Seq<Seq<u8>>,
    zeros: Seq<Seq<u8>>,
    level: nat,
    pos: int,
) -> Seq<u8>
    decreases level,
{
    if level == 0 {
        if 0 <= pos < leaves.len() {
            leaves[pos]
        } else {
            zeros[0]
        }
    } else {
        node_hash(
            layer_node(leaves, zeros, (level - 1) as nat, 2 * pos),
            layer_node(leaves, zeros, (level - 1) as nat, 2 * pos + 1),
        )
    }
}

/// A node whose whole block of leaves lies beyond the stored ones is the
/// empty hash of its level.
pub proof fn lemma_layer_node_empty(
    leaves: Seq<Seq<u8>>,
    zeros: Seq<Seq<u8>>,
    level: nat,
    pos: int,
)
    requires
        zeros_wf(zeros),
        level < zeros.len(),
        pos >= 0,
        pos * pow2(level) >= leaves.len(),
    ensures
        layer_node(leaves, zeros, level, pos) == zeros[level as int],
    decreases level,
{
    vstd::arithmetic::power2::lemma2_to64();
    let p2 = pow2(level) as int;
    if level == 0 {
        assert(pos >= leaves.len()) by (nonlinear_arith)
            requires
                p2 == 1,
                pos * p2 >= leaves.len(),
        ;
    } else {
        lemma_pow2_unfold(level);
        lemma_pow2_pos((level - 1) as nat);
        let half = pow2((level - 1) as nat) as int;
        assert((2 * pos) * half == pos * (2 * half) && (2 * pos + 1) * half >= (2 * pos) * half)
            by (nonlinear_arith)
            requires
                half >= 0,
        ;
        lemma_layer_node_empty(leaves, zeros, (level - 1) as nat, 2 * pos);
        lemma_layer_node_empty(leaves, zeros, (level - 1) as nat, 2 * pos + 1);
        let a = layer_node(leaves, zeros, (level - 1) as nat, 2 * pos);
        let b = layer_node(leaves, zeros, (level - 1) as nat, 2 * pos + 1);
        assert(a == zeros[level as int - 1]);
        assert(b == zeros[level as int - 1]);
        assert(layer_node(leaves, zeros, level, pos) == node_hash(a, b));
        assert(zeros[level as int] == node_hash(zeros[level as int - 1], zeros[level as int - 1]));
        assert(layer_node(leaves, zeros, level, pos) == zeros[level as int]);
    }
}

/// Appending one leaf does not change a node whose block of leaves does
/// not contain the new index.
pub proof fn lemma_layer_node_stable(
    leaves: Seq<Seq<u8>>,
    zeros: Seq<Seq<u8>>,
    leaf: Seq<u8>,
    level: nat,
    pos: int,
)
    requires
        pos >= 0,
        (pos + 1) * pow2(level) <= leaves.len() || pos * pow2(level) > leaves.len(),
    ensures
        layer_node(leaves.push(leaf), zeros, level, pos) == layer_node(leaves, zeros, level, pos),
    decreases level,
{
    vstd::arithmetic::power2::lemma2_to64();
    lemma_pow2_pos(level);
    let p2 = pow2(level) as int;
    if level == 0 {
        assert(pos < leaves.len() || pos > leaves.len()) by (nonlinear_arith)
            requires
                p2 == 1,
                (pos + 1) * p2 <= leaves.len() || pos * p2 > leaves.len(),
        ;
        if 0 <= pos < leaves.len() {
            assert(leaves.push(leaf)[pos] == leaves[pos]);
        }
    } else {
        lemma_pow2_unfold(level);
        lemma_pow2_pos((level - 1) as nat);
        let half = pow2((level - 1) as nat) as int;
        assert((2 * pos) * half == pos * (2 * half) && (2 * pos + 2) * half == (pos + 1) * (2
            * half) && (2 * pos + 1) * half == (2 * pos) * half + half && (2 * pos + 2) * half == (2
            * pos + 1) * half + half) by (nonlinear_arith)
            requires
                half >= 0,
        ;
        lemma_layer_node_stable(leaves, zeros, leaf, (level - 1) as nat, 2 * pos);
        lemma_layer_node_stable(leaves, zeros, leaf, (level - 1) as nat, 2 * pos + 1);
    }
}

/// The filled-subtree position at `level` after appends up to index `k`:
/// the last even position whose block has begun.
pub open spec fn filled_pos(k: int, level: nat) -> int {
    let q = k / pow2(level) as int;
    q - (q % 2)
}

/// The accumulator state reached by appending `leaves` to a fresh tree:
/// the root is the canonical root, and each level's filled subtree is the
/// canonical node at its filled position.
pub open spec fn tree_tracks(m: TreeModel, leaves: Seq<Seq<u8>>, zeros: Seq<Seq<u8>>) -> bool {
    let n = leaves.len() as int;
    &&& m.zero_values == zeros
    &&& m.filled_subtrees.len() == zeros.len()
    &&& m.next_index == n
    &&& n > 0 ==> m.root == layer_node(leaves, zeros, zeros.len(), 0)
    &&& forall|i: int|
        0 <= i < zeros.len() ==> m.filled_subtrees[i] == (
        if n == 0 {
            zeros[i]
        } else {
            layer_node(leaves, zeros, i as nat, filled_pos(n - 1, i as nat))
        })
}

/// The empty-hash chain grown from a seed digest, as the accumulator's
/// constructor builds it, is a well-formed chain.
pub proof fn lemma_zero_chain_wf(seed_digest: Seq<u8>, zeros: Seq<Seq<u8>>)
    requires
        forall|i: int|
            0 <= i < zeros.len() ==> #[trigger] zeros[i] == crate::merkle::spec_zero_at(
                seed_digest,
                i as nat,
            ),
    ensures
        zeros_wf(zeros),
{
    assert forall|i: int|
        1 <= i < zeros.len() implies #[trigger] zeros[i] == node_hash(
        zeros[i - 1],
        zeros[i - 1],
    ) by {
        assert(zeros[i] == crate::merkle::spec_zero_at(seed_digest, i as nat));
        assert(zeros[i - 1] == crate::merkle::spec_zero_at(seed_digest, (i - 1) as nat));
    }
}

/// A fresh accumulator over the given empty-hash chain.
pub open spec fn fresh_tree(zeros: Seq<Seq<u8>>) -> TreeModel {
    TreeModel {
        root: zeros.last(),
        filled_subtrees: zeros,
        zero_values: zeros,
        next_index: 0,
    }
}

/// Stepping one level down after an append at `k` whose position at this
/// level is odd: the filled position of the previous index is the left
/// sibling.
proof fn lemma_filled_pos_step(k: int, level: nat)
    requires
        k >= 1,
        (k / pow2(level) as int) % 2 == 1,
    ensures
        filled_pos(k - 1, level) == k / pow2(level) as int - 1,
{
    let p2 = pow2(level) as int;
    lemma_pow2_pos(level);
    let q = k / p2;
    lemma_fundamental_div_mod(k, p2);
    let r = k % p2;
    if r > 0 {
        lemma_fundamental_div_mod_converse_div(k - 1, p2, q, r - 1);
        assert((k - 1) / p2 == q);
    } else {
        assert(k - 1 == (q - 1) * p2 + (p2 - 1)) by (nonlinear_arith)
            requires
                k == p2 * q + 0,
        ;
        lemma_fundamental_div_mod_converse_div(k - 1, p2, q - 1, p2 - 1);
        assert((k - 1) / p2 == q - 1);
    }
}

/// The carried hash of an append agrees with the canonical node above the
/// new leaf at every level.
proof fn lemma_add_carry(
    m: TreeModel,
    leaves: Seq<Seq<u8>>,
    zeros: Seq<Seq<u8>>,
    leaf: Seq<u8>,
    i: nat,
)
    requires
        zeros_wf(zeros),
        tree_tracks(m, leaves, zeros),
        leaves.len() < pow2(zeros.len()),
        i <= zeros.len(),
    ensures
        spec_add_level(m.filled_subtrees, zeros, leaves.len() as int, leaf, i) == layer_node(
            leaves.push(leaf),
            zeros,
            i,
            leaves.len() as int / pow2(i) as int,
        ),
    decreases i,
{
    let k = leaves.len() as int;
    let extended = leaves.push(leaf);
    let p2 = pow2(i) as int;
    lemma_pow2_pos(i);
    vstd::arithmetic::power2::lemma2_to64();
    if i == 0 {
        assert(k / p2 == k) by (nonlinear_arith)
            requires
                p2 == 1,
                k >= 0,
        ;
        assert(extended[k] == leaf);
    } else {
        lemma_add_carry(m, leaves, zeros, leaf, (i - 1) as nat);
        let half = pow2((i - 1) as nat) as int;
        lemma_pow2_pos((i - 1) as nat);
        lemma_pow2_unfold(i);
        let q = k / half;
        let below = spec_add_level(m.filled_subtrees, zeros, k, leaf, (i - 1) as nat);
        assert(below == layer_node(extended, zeros, (i - 1) as nat, q));
        let p = k / p2;
        lemma_div_denominator(k, half, 2);
        assert(half * 2 == p2);
        assert(p == q / 2);
        lemma_fundamental_div_mod(k, half);
        lemma_fundamental_div_mod(q, 2);
        if q % 2 == 0 {
            // The carry arrives as a left child; its right sibling is an
            // all-empty block.
            assert(2 * p == q);
            assert((q + 1) * half >= k + 1) by (nonlinear_arith)
                requires
                    k == half * q + k % half,
                    0 <= k % half < half,
            ;
            lemma_layer_node_empty(extended, zeros, (i - 1) as nat, q + 1);
            assert(layer_node(extended, zeros, i, p) == node_hash(
                layer_node(extended, zeros, (i - 1) as nat, q),
                layer_node(extended, zeros, (i - 1) as nat, q + 1),
            ));
        } else {
            // The carry arrives as a right child; its left sibling is the
            // filled subtree recorded for this level.
            assert(2 * p + 1 == q);
            assert(k >= 1) by (nonlinear_arith)
                requires
                    k == half * q + k % half,
                    q >= 1,
                    half >= 1,
                    k % half >= 0,
            ;
            lemma_filled_pos_step(k, (i - 1) as nat);
            assert(m.filled_subtrees[i - 1] == layer_node(
                leaves,
                zeros,
                (i - 1) as nat,
                q - 1,
            ));
            // The left sibling's block is already fully stored.
            assert(q * half <= k) by (nonlinear_arith)
                requires
                    k == half * q + k % half,
                    k % half >= 0,
            ;
            lemma_layer_node_stable(leaves, zeros, leaf, (i - 1) as nat, q - 1);
            assert(layer_node(extended, zeros, i, p) == node_hash(
                layer_node(extended, zeros, (i - 1) as nat, q - 1),
                layer_node(extended, zeros, (i - 1) as nat, q),
            ));
        }
    }
}

/// One append preserves the canonical tracking of the accumulator.
proof fn lemma_tree_add_tracks(
    m: TreeModel,
    leaves: Seq<Seq<u8>>,
    zeros: Seq<Seq<u8>>,
    leaf: Seq<u8>,
)
    requires
        zeros_wf(zeros),
        tree_tracks(m, leaves, zeros),
        leaves.len() < pow2(zeros.len()),
        zeros.len() >= 1,
    ensures
        tree_tracks(spec_tree_add(m, leaf), leaves.push(leaf), zeros),
{
    let k = leaves.len() as int;
    let extended = leaves.push(leaf);
    let n = zeros.len();
    let added = spec_tree_add(m, leaf);
    lemma_pow2_pos(n);
    lemma_add_carry(m, leaves, zeros, leaf, n);
    lemma_basic_div(k, pow2(n) as int);
    assert(added.root == layer_node(extended, zeros, n, 0));
    assert forall|i: int| 0 <= i < n implies added.filled_subtrees[i] == layer_node(
        extended,
        zeros,
        i as nat,
        filled_pos(k, i as nat),
    ) by {
        let p2 = pow2(i as nat) as int;
        lemma_pow2_pos(i as nat);
        let q = k / p2;
        lemma_fundamental_div_mod(k, p2);
        if q % 2 == 0 {
            lemma_add_carry(m, leaves, zeros, leaf, i as nat);
            assert(filled_pos(k, i as nat) == q);
        } else {
            assert(filled_pos(k, i as nat) == q - 1);
            assert(k >= 1) by (nonlinear_arith)
                requires
                    k == p2 * q + k % p2,
                    q >= 1,
                    p2 >= 1,
                    k % p2 >= 0,
            ;
            lemma_filled_pos_step(k, i as nat);
            assert(m.filled_subtrees[i] == layer_node(leaves, zeros, i as nat, q - 1));
            assert(q * p2 <= k) by (nonlinear_arith)
                requires
                    k == p2 * q + k % p2,
                    k % p2 >= 0,
            ;
            lemma_layer_node_stable(leaves, zeros, leaf, i as nat, q - 1);
        }
    }
}

/// The accumulator grown by any sequence of appends tracks the canonical
/// tree over those leaves.
pub proof fn lemma_add_seq_tracks(leaves: Seq<Seq<u8>>, zeros: Seq<Seq<u8>>)
    requires
        zeros_wf(zeros),
        zeros.len() >= 1,
        leaves.len() <= pow2(zeros.len()),
    ensures
        tree_tracks(spec_tree_add_seq(fresh_tree(zeros), leaves), leaves, zeros),
    decreases leaves.len(),
{
    if leaves.len() == 0 {
        assert(spec_tree_add_seq(fresh_tree(zeros), leaves) == fresh_tree(zeros));
    } else {
        let front = leaves.drop_last();
        let last = leaves.last();
        lemma_add_seq_tracks(front, zeros);
        lemma_tree_add_seq_push(fresh_tree(zeros), front, last);
        assert(front.push(last) =~= leaves);
        lemma_tree_add_tracks(spec_tree_add_seq(fresh_tree(zeros), front), front, zeros, last);
    }
}

/// The canonical sibling path of the leaf at `index`: at each level, the
/// node next to the leaf's ancestor.
pub open spec fn canonical_proof(
    leaves: Seq<Seq<u8>>,
    zeros: Seq<Seq<u8>>,
    index: int,
) -> Seq<Seq<u8>> {
    Seq::new(
        zeros.len(),
        |l: int|
            {
                let q = index / pow2(l as nat) as int;
                if q % 2 == 0 {
                    layer_node(leaves, zeros, l as nat, q + 1)
                } else {
                    layer_node(leaves, zeros, l as nat, q - 1)
                }
            },
    )
}

/// Folding the canonical sibling path onto a stored leaf reaches, at each
/// level, the canonical node above that leaf.
proof fn lemma_path_is_layer(leaves: Seq<Seq<u8>>, zeros: Seq<Seq<u8>>, index: int, l: nat)
    requires
        0 <= index < leaves.len(),
        l <= zeros.len(),
    ensures
        spec_path_at(leaves[index], canonical_proof(leaves, zeros, index), l) == layer_node(
            leaves,
            zeros,
            l,
            index / pow2(l) as int,
        ),
    decreases l,
{
    let p2 = pow2(l) as int;
    lemma_pow2_pos(l);
    vstd::arithmetic::power2::lemma2_to64();
    if l == 0 {
        assert(index / p2 == index) by (nonlinear_arith)
            requires
                p2 == 1,
                index >= 0,
        ;
    } else {
        lemma_path_is_layer(leaves, zeros, index, (l - 1) as nat);
        let half = pow2((l - 1) as nat) as int;
        lemma_pow2_pos((l - 1) as nat);
        lemma_pow2_unfold(l);
        let q = index / half;
        let p = index / p2;
        lemma_div_denominator(index, half, 2);
        assert(half * 2 == p2);
        assert(p == q / 2);
        lemma_fundamental_div_mod(q, 2);
        let proof_path = canonical_proof(leaves, zeros, index);
        let below = spec_path_at(leaves[index], proof_path, (l - 1) as nat);
        assert(below == layer_node(leaves, zeros, (l - 1) as nat, q));
        if q % 2 == 0 {
            assert(2 * p == q);
            assert(proof_path[l - 1] == layer_node(leaves, zeros, (l - 1) as nat, q + 1));
            assert(layer_node(leaves, zeros, l, p) == node_hash(
                layer_node(leaves, zeros, (l - 1) as nat, q),
                layer_node(leaves, zeros, (l - 1) as nat, q + 1),
            ));
        } else {
            assert(2 * p + 1 == q);
            assert(proof_path[l - 1] == layer_node(leaves, zeros, (l - 1) as nat, q - 1));
            lemma_node_hash_symmetric(
                layer_node(leaves, zeros, (l - 1) as nat, q),
                layer_node(leaves, zeros, (l - 1) as nat, q - 1),
            );
            assert(layer_node(leaves, zeros, l, p) == node_hash(
                layer_node(leaves, zeros, (l - 1) as nat, q - 1),
                layer_node(leaves, zeros, (l - 1) as nat, q),
            ));
        }
    }
}

/// Two leaf sequences of equal length that agree on a node's whole block
/// give that node the same hash.
proof fn lemma_layer_node_agree(
    l1: Seq<Seq<u8>>,
    l2: Seq<Seq<u8>>,
    zeros: Seq<Seq<u8>>,
    level: nat,
    pos: int,
)
    requires
        l1.len() == l2.len(),
        pos >= 0,
        forall|j: int|
            pos * pow2(level) <= j < (pos + 1) * pow2(level) && 0 <= j < l1.len()
                ==> #[trigger] l1[j] == l2[j],
    ensures
        layer_node(l1, zeros, level, pos) == layer_node(l2, zeros, level, pos),
    decreases level,
{
    vstd::arithmetic::power2::lemma2_to64();
    lemma_pow2_pos(level);
    let p2 = pow2(level) as int;
    if level == 0 {
        if 0 <= pos < l1.len() {
            assert(pos * p2 <= pos < (pos + 1) * p2) by (nonlinear_arith)
                requires
                    p2 == 1,
            ;
        }
    } else {
        lemma_pow2_unfold(level);
        lemma_pow2_pos((level - 1) as nat);
        let half = pow2((level - 1) as nat) as int;
        assert((2 * pos) * half == pos * (2 * half) && (2 * pos + 2) * half == (pos + 1) * (2
            * half) && (2 * pos + 1) * half == (2 * pos) * half + half && (2 * pos + 2) * half == (2
            * pos + 1) * half + half) by (nonlinear_arith)
            requires
                half >= 0,
        ;
        lemma_layer_node_agree(l1, l2, zeros, (level - 1) as nat, 2 * pos);
        lemma_layer_node_agree(l1, l2, zeros, (level - 1) as nat, 2 * pos + 1);
    }
}

/// Replacing the leaf at `index` leaves its own canonical sibling path
/// unchanged: no sibling's block contains the replaced index.
proof fn lemma_canonical_proof_stable(
    leaves: Seq<Seq<u8>>,
    zeros: Seq<Seq<u8>>,
    index: int,
    new_leaf: Seq<u8>,
)
    requires
        0 <= index < leaves.len(),
    ensures
        canonical_proof(leaves.update(index, new_leaf), zeros, index) == canonical_proof(
            leaves,
            zeros,
            index,
        ),
{
    let updated = leaves.update(index, new_leaf);
    assert forall|l: int| 0 <= l < zeros.len() implies canonical_proof(updated, zeros, index)[l]
        == canonical_proof(leaves, zeros, index)[l] by {
        let p2 = pow2(l as nat) as int;
        lemma_pow2_pos(l as nat);
        let q = index / p2;
        lemma_fundamental_div_mod(index, p2);
        let s = if q % 2 == 0 {
            q + 1
        } else {
            q - 1
        };
        // The replaced index lies in its own ancestor's block, not in the
        // sibling's.
        assert forall|j: int|
            s * p2 <= j < (s + 1) * p2 && 0 <= j < leaves.len() implies #[trigger] updated[j]
            == leaves[j] by {
            if j == index {
                assert(q * p2 <= index < (q + 1) * p2) by (nonlinear_arith)
                    requires
                        index == p2 * q + index % p2,
                        0 <= index % p2 < p2,
                ;
                assert((s + 1) * p2 <= q * p2 || (q + 1) * p2 <= s * p2) by (nonlinear_arith)
                    requires
                        p2 >= 1,
                        s + 1 <= q || q + 1 <= s,
                ;
            }
        }
        lemma_layer_node_agree(updated, leaves, zeros, l as nat, s);
    }
    assert(canonical_proof(updated, zeros, index) =~= canonical_proof(leaves, zeros, index));
}

/// A replacement authenticated by the canonical sibling path keeps every
/// other leaf verifiable, and re-verifies the new one.
///
/// After appending `leaves` and replacing the leaf at `index` through its
/// canonical path, the accumulator's root is the canonical root of the
/// updated leaves; so each position `j` — the replaced one with its new
/// leaf, every other with its previous leaf — verifies against the new
/// root with its canonical path over the updated leaves.
pub proof fn law_update_preserves_other_leaves(
    leaves: Seq<Seq<u8>>,
    zeros: Seq<Seq<u8>>,
    index: int,
    new_leaf: Seq<u8>,
    j: int,
)
    requires
        zeros_wf(zeros),
        zeros.len() >= 1,
        leaves.len() <= pow2(zeros.len()),
        0 <= index < leaves.len(),
        0 <= j < leaves.len(),
    ensures
        ({
            let accumulated = spec_tree_add_seq(fresh_tree(zeros), leaves);
            let replaced = crate::merkle::spec_tree_replace(
                accumulated,
                canonical_proof(leaves, zeros, index),
                leaves[index],
                new_leaf,
            );
            let updated = leaves.update(index, new_leaf);
            // The canonical path authenticates the old leaf, so the
            // replacement is accepted.
            &&& spec_path_root(leaves[index], canonical_proof(leaves, zeros, index))
                == accumulated.root
            // Every position still verifies against the new root.
            &&& spec_path_root(updated[j], canonical_proof(updated, zeros, j)) == replaced.root
        }),
{
    let n = zeros.len();
    let updated = leaves.update(index, new_leaf);
    law_every_leaf_verifies(leaves, zeros, index);
    lemma_canonical_proof_stable(leaves, zeros, index, new_leaf);
    lemma_path_is_layer(updated, zeros, index, n);
    lemma_path_is_layer(updated, zeros, j, n);
    lemma_pow2_pos(n);
    lemma_basic_div(index, pow2(n) as int);
    lemma_basic_div(j, pow2(n) as int);
}

/// Appending an explicit empty leaf changes no node: the canonical tree
/// already pads every position past the stored leaves with the empty
/// hash.
proof fn lemma_layer_node_pad(
    leaves: Seq<Seq<u8>>,
    zeros: Seq<Seq<u8>>,
    level: nat,
    pos: int,
)
    requires
        zeros.len() > 0,
    ensures
        layer_node(leaves.push(zeros[0]), zeros, level, pos) == layer_node(
            leaves,
            zeros,
            level,
            pos,
        ),
    decreases level,
{
    if level == 0 {
        if 0 <= pos < leaves.len() {
            assert(leaves.push(zeros[0])[pos] == leaves[pos]);
        } else if pos == leaves.len() {
            assert(leaves.push(zeros[0])[pos] == zeros[0]);
        }
    } else {
        lemma_layer_node_pad(leaves, zeros, (level - 1) as nat, 2 * pos);
        lemma_layer_node_pad(leaves, zeros, (level - 1) as nat, 2 * pos + 1);
    }
}

/// Packing a leaf and then unpacking it through its canonical sibling
/// path restores the accumulator's root.
///
/// Appending `leaf` and then replacing it by the leaf-level empty hash,
/// authenticated by the appended leaf's canonical path, yields exactly
/// the root held before the append; the append cursor alone advances.
pub proof fn law_pack_then_unpack_restores_root(
    leaves: Seq<Seq<u8>>,
    zeros: Seq<Seq<u8>>,
    leaf: Seq<u8>,
)
    requires
        zeros_wf(zeros),
        zeros.len() >= 1,
        leaves.len() < pow2(zeros.len()),
    ensures
        ({
            let accumulated = spec_tree_add_seq(fresh_tree(zeros), leaves);
            let packed = spec_tree_add(accumulated, leaf);
            let proof = canonical_proof(leaves.push(leaf), zeros, leaves.len() as int);
            // The canonical path authenticates the packed leaf, so the
            // unpack is accepted.
            &&& spec_path_root(leaf, proof) == packed.root
            // The root returns to its value before the pack, or to the
            // canonical all-empty state when nothing was stored.
            &&& leaves.len() > 0 ==> crate::merkle::spec_tree_replace(
                packed,
                proof,
                leaf,
                zeros[0],
            ).root == accumulated.root
        }),
{
    let n = leaves.len() as int;
    let extended = leaves.push(leaf);
    let accumulated = spec_tree_add_seq(fresh_tree(zeros), leaves);
    let packed = spec_tree_add(accumulated, leaf);
    let proof = canonical_proof(extended, zeros, n);

    // The packed tree is the accumulator over the extended history.
    lemma_add_seq_tracks(leaves, zeros);
    lemma_tree_add_tracks(accumulated, leaves, zeros, leaf);
    lemma_tree_add_seq_push(fresh_tree(zeros), leaves, leaf);
    law_every_leaf_verifies(extended, zeros, n);

    // Unpacking folds the empty hash along the packed leaf's path, which
    // reaches the canonical root of the history with the leaf blanked;
    // that equals the canonical root of the original history.
    let blanked = extended.update(n, zeros[0]);
    lemma_canonical_proof_stable(extended, zeros, n, zeros[0]);
    lemma_path_is_layer(blanked, zeros, n, zeros.len());
    lemma_pow2_pos(zeros.len());
    lemma_basic_div(n, pow2(zeros.len()) as int);
    assert(blanked =~= leaves.push(zeros[0]));
    lemma_layer_node_pad(leaves, zeros, zeros.len(), 0);
    if leaves.len() > 0 {
        assert(accumulated.root == layer_node(leaves, zeros, zeros.len(), 0));
    }
}

/// Every stored leaf verifies against the accumulator's root.
///
/// After any sequence of appends that fits the tree, each appended leaf,
/// together with its canonical sibling path over the same history,
/// re-folds to exactly the root the incremental accumulator reached.
pub proof fn law_every_leaf_verifies(leaves: Seq<Seq<u8>>, zeros: Seq<Seq<u8>>, index: int)
    requires
        zeros_wf(zeros),
        zeros.len() >= 1,
        leaves.len() <= pow2(zeros.len()),
        0 <= index < leaves.len(),
    ensures
        spec_path_root(leaves[index], canonical_proof(leaves, zeros, index)) == spec_tree_add_seq(
            fresh_tree(zeros),
            leaves,
        ).root,
{
    lemma_add_seq_tracks(leaves, zeros);
    lemma_path_is_layer(leaves, zeros, index, zeros.len());
    lemma_pow2_pos(zeros.len());
    lemma_basic_div(index, pow2(zeros.len()) as int);
}

} // verus!
