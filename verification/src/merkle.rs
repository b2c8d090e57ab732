//! Incrementally updatable Merkle accumulator over fixed-size leaves.
//!
//! The accumulator keeps, per level, the hash of the last filled left
//! subtree and the hash of an all-empty subtree; appending folds the new
//! leaf along the rightmost path in one pass, and replacing re-walks a
//! supplied sibling path. Parent hashes order their two children bytewise
//! before hashing, so a sibling path needs no direction bits.

use vstd::prelude::*;
use vstd::arithmetic::power2::pow2;
use crate::hashing::{blake3_of, node_tag};

verus! {

/// Mathematical view of a Merkle accumulator: every hash as a byte string.
pub ghost struct TreeModel {
    /// Current root hash.
    pub root: Seq<u8>,
    /// Per level, the hash of the last filled left subtree.
    pub filled_subtrees: Seq<Seq<u8>>,
    /// Per level, the hash of an all-empty subtree of that depth.
    pub zero_values: Seq<Seq<u8>>,
    /// Number of leaves appended so far.
    pub next_index: int,
}

/// Bytewise lexicographic order on byte strings, a shorter prefix first;
/// on equal-length strings this is the order Rust gives fixed byte arrays.
pub open spec fn bytes_le(a: Seq<u8>, b: Seq<u8>) -> bool
    decreases a.len(),
{
    if a.len() == 0 {
        true
    } else if b.len() == 0 {
        false
    } else if a[0] < b[0] {
        true
    } else if a[0] > b[0] {
        false
    } else {
        bytes_le(a.drop_first(), b.drop_first())
    }
}

/// Every byte string compares less-or-equal to itself.
pub proof fn lemma_bytes_le_reflexive(a: Seq<u8>)
    ensures
        bytes_le(a, a),
    decreases a.len(),
{
    if a.len() > 0 {
        lemma_bytes_le_reflexive(a.drop_first());
    }
}

/// Parent hash of two children: the `NODE` tag and the pair in ascending
/// bytewise order, run through blake3.
pub open spec fn node_hash(a: Seq<u8>, b: Seq<u8>) -> Seq<u8> {
    if bytes_le(a, b) {
        blake3_of(node_tag() + a + b)
    } else {
        blake3_of(node_tag() + b + a)
    }
}

/// The empty-subtree hash at level `i`, grown from the seed digest at the
/// leaf level by hashing each level's empty hash with itself.
pub open spec fn spec_zero_at(seed_digest: Seq<u8>, i: nat) -> Seq<u8>
    decreases i,
{
    if i == 0 {
        seed_digest
    } else {
        let z = spec_zero_at(seed_digest, (i - 1) as nat);
        node_hash(z, z)
    }
}

/// The hash carried into level `i` while appending `leaf` at position
/// `index`: at each level the carried hash pairs with the empty hash when
/// it arrives as a left child, and with the filled subtree when it arrives
/// as a right child.
pub open spec fn spec_add_level(
    subtrees: Seq<Seq<u8>>,
    zeros: Seq<Seq<u8>>,
    index: int,
    leaf: Seq<u8>,
    i: nat,
) -> Seq<u8>
    decreases i,
{
    if i == 0 {
        leaf
    } else {
        let below = spec_add_level(subtrees, zeros, index, leaf, (i - 1) as nat);
        if (index / pow2((i - 1) as nat) as int) % 2 == 0 {
            node_hash(below, zeros[i - 1])
        } else {
            node_hash(subtrees[i - 1], below)
        }
    }
}

/// The accumulator after appending `leaf`: the root is the full fold of the
/// carried hash, and each level where the carry arrived as a left child
/// records it as that level's filled subtree.
pub open spec fn spec_tree_add(m: TreeModel, leaf: Seq<u8>) -> TreeModel {
    let n = m.zero_values.len();
    TreeModel {
        root: spec_add_level(m.filled_subtrees, m.zero_values, m.next_index, leaf, n),
        filled_subtrees: Seq::new(
            n,
            |i: int|
                if (m.next_index / pow2(i as nat) as int) % 2 == 0 {
                    spec_add_level(m.filled_subtrees, m.zero_values, m.next_index, leaf, i as nat)
                } else {
                    m.filled_subtrees[i]
                },
        ),
        zero_values: m.zero_values,
        next_index: m.next_index + 1,
    }
}

/// The accumulator after appending a whole sequence of leaves in order.
pub open spec fn spec_tree_add_seq(m: TreeModel, leaves: Seq<Seq<u8>>) -> TreeModel
    decreases leaves.len(),
{
    if leaves.len() == 0 {
        m
    } else {
        spec_tree_add_seq(spec_tree_add(m, leaves[0]), leaves.drop_first())
    }
}

/// Appending a leaf keeps the accumulator well formed; it gains one leaf.
pub proof fn lemma_tree_add_wf(m: TreeModel, leaf: Seq<u8>, n: nat)
    requires
        tree_wf(m, n),
        m.next_index < pow2(n),
    ensures
        tree_wf(spec_tree_add(m, leaf), n),
        spec_tree_add(m, leaf).next_index == m.next_index + 1,
        spec_tree_add(m, leaf).zero_values == m.zero_values,
{
}

/// Appending a sequence and then one more leaf is appending the extended
/// sequence.
pub proof fn lemma_tree_add_seq_push(m: TreeModel, leaves: Seq<Seq<u8>>, leaf: Seq<u8>)
    ensures
        spec_tree_add_seq(m, leaves.push(leaf)) == spec_tree_add(spec_tree_add_seq(m, leaves), leaf),
    decreases leaves.len(),
{
    let extended = leaves.push(leaf);
    if leaves.len() == 0 {
        assert(extended.drop_first() =~= Seq::<Seq<u8>>::empty());
        assert(extended[0] == leaf);
        assert(spec_tree_add_seq(m, extended) == spec_tree_add_seq(
            spec_tree_add(m, leaf),
            extended.drop_first(),
        ));
    } else {
        let l0 = leaves[0];
        let rest = leaves.drop_first();
        assert(extended[0] == l0);
        assert(extended.drop_first() =~= rest.push(leaf));
        lemma_tree_add_seq_push(spec_tree_add(m, l0), rest, leaf);
        assert(spec_tree_add_seq(m, extended) == spec_tree_add_seq(
            spec_tree_add(m, l0),
            rest.push(leaf),
        ));
        assert(spec_tree_add_seq(m, leaves) == spec_tree_add_seq(spec_tree_add(m, l0), rest));
    }
}

/// Appending a sequence of leaves to a well-formed accumulator with room
/// for all of them keeps it well formed and grows it by their number.
pub proof fn lemma_tree_add_seq_wf(m: TreeModel, leaves: Seq<Seq<u8>>, n: nat)
    requires
        tree_wf(m, n),
        m.next_index + leaves.len() <= pow2(n),
    ensures
        tree_wf(spec_tree_add_seq(m, leaves), n),
        spec_tree_add_seq(m, leaves).next_index == m.next_index + leaves.len(),
        spec_tree_add_seq(m, leaves).zero_values == m.zero_values,
    decreases leaves.len(),
{
    if leaves.len() > 0 {
        lemma_tree_add_wf(m, leaves[0], n);
        lemma_tree_add_seq_wf(spec_tree_add(m, leaves[0]), leaves.drop_first(), n);
    }
}

/// The hash reached after folding the first `i` siblings of `proof` onto
/// `leaf`.
pub open spec fn spec_path_at(leaf: Seq<u8>, proof: Seq<Seq<u8>>, i: nat) -> Seq<u8>
    decreases i,
{
    if i == 0 {
        leaf
    } else {
        node_hash(spec_path_at(leaf, proof, (i - 1) as nat), proof[i - 1])
    }
}

/// The root implied by folding a whole sibling path onto `leaf`.
pub open spec fn spec_path_root(leaf: Seq<u8>, proof: Seq<Seq<u8>>) -> Seq<u8> {
    spec_path_at(leaf, proof, proof.len())
}

/// The accumulator after replacing `old_leaf` (whose sibling path is
/// `proof`) with `new_leaf`: the root becomes the re-folded path, and every
/// level whose filled subtree lay on the old path is rewritten to the
/// corresponding node of the new path.
pub open spec fn spec_tree_replace(
    m: TreeModel,
    proof: Seq<Seq<u8>>,
    old_leaf: Seq<u8>,
    new_leaf: Seq<u8>,
) -> TreeModel {
    let n = m.zero_values.len();
    TreeModel {
        root: spec_path_root(new_leaf, proof),
        filled_subtrees: Seq::new(
            n,
            |i: int|
                if spec_path_at(old_leaf, proof, i as nat) == m.filled_subtrees[i] {
                    spec_path_at(new_leaf, proof, i as nat)
                } else {
                    m.filled_subtrees[i]
                },
        ),
        zero_values: m.zero_values,
        next_index: m.next_index,
    }
}

/// Two byte strings that compare less-or-equal both ways are equal.
pub proof fn lemma_bytes_le_antisymmetric(a: Seq<u8>, b: Seq<u8>)
    requires
        bytes_le(a, b),
        bytes_le(b, a),
    ensures
        a == b,
    decreases a.len(),
{
    if a.len() == 0 {
        assert(b.len() == 0);
        assert(a =~= b);
    } else {
        assert(b.len() > 0);
        assert(a[0] == b[0]);
        lemma_bytes_le_antisymmetric(a.drop_first(), b.drop_first());
        assert forall|i: int| 0 <= i < a.len() implies a[i] == b[i] by {
            if i > 0 {
                assert(a[i] == a.drop_first()[i - 1]);
                assert(b[i] == b.drop_first()[i - 1]);
            }
        }
        assert(a =~= b);
    }
}

/// A parent hash does not depend on the order its two children are given
/// in: the smaller is always hashed first.
pub proof fn lemma_node_hash_symmetric(a: Seq<u8>, b: Seq<u8>)
    ensures
        node_hash(a, b) == node_hash(b, a),
{
    if bytes_le(a, b) && bytes_le(b, a) {
        lemma_bytes_le_antisymmetric(a, b);
    } else if !bytes_le(a, b) && !bytes_le(b, a) {
        lemma_bytes_le_total(a, b);
    }
}

/// At least one of the two orders compares less-or-equal.
pub proof fn lemma_bytes_le_total(a: Seq<u8>, b: Seq<u8>)
    ensures
        bytes_le(a, b) || bytes_le(b, a),
    decreases a.len(),
{
    if a.len() > 0 && b.len() > 0 && a[0] == b[0] {
        lemma_bytes_le_total(a.drop_first(), b.drop_first());
    }
}

/// The sibling path along the rightmost edge after an append at
/// `index`: the empty hash at every level the carry passes as a left
/// child, the filled subtree at every level it passes as a right child.
pub open spec fn spec_rightmost_proof(
    subtrees: Seq<Seq<u8>>,
    zeros: Seq<Seq<u8>>,
    index: int,
) -> Seq<Seq<u8>> {
    Seq::new(
        zeros.len(),
        |i: int|
            if (index / pow2(i as nat) as int) % 2 == 0 {
                zeros[i]
            } else {
                subtrees[i]
            },
    )
}

/// The append fold and the path fold along the rightmost proof agree at
/// every level.
proof fn lemma_add_level_is_path(
    subtrees: Seq<Seq<u8>>,
    zeros: Seq<Seq<u8>>,
    index: int,
    leaf: Seq<u8>,
    i: nat,
)
    requires
        subtrees.len() == zeros.len(),
        i <= zeros.len(),
    ensures
        spec_add_level(subtrees, zeros, index, leaf, i) == spec_path_at(
            leaf,
            spec_rightmost_proof(subtrees, zeros, index),
            i,
        ),
    decreases i,
{
    if i > 0 {
        lemma_add_level_is_path(subtrees, zeros, index, leaf, (i - 1) as nat);
        let rp = spec_rightmost_proof(subtrees, zeros, index);
        let below = spec_add_level(subtrees, zeros, index, leaf, (i - 1) as nat);
        if (index / pow2((i - 1) as nat) as int) % 2 == 0 {
            assert(rp[i - 1] == zeros[i - 1]);
        } else {
            assert(rp[i - 1] == subtrees[i - 1]);
            lemma_node_hash_symmetric(subtrees[i - 1], below);
        }
    }
}

/// Append-then-verify: the leaf just appended to the accumulator verifies
/// against the new root, with the rightmost sibling path — the empty and
/// filled subtree hashes the append folded with — as its proof.
pub proof fn law_append_then_verify(m: TreeModel, leaf: Seq<u8>, n: nat)
    requires
        tree_wf(m, n),
        m.next_index < pow2(n),
    ensures
        spec_path_root(
            leaf,
            spec_rightmost_proof(m.filled_subtrees, m.zero_values, m.next_index),
        ) == spec_tree_add(m, leaf).root,
{
    lemma_add_level_is_path(m.filled_subtrees, m.zero_values, m.next_index, leaf, n);
}

/// Update-then-verify: after a replacement authenticated by a sibling
/// path, the new leaf verifies against the new root with that same path.
pub proof fn law_update_then_verify(
    m: TreeModel,
    proof: Seq<Seq<u8>>,
    old_leaf: Seq<u8>,
    new_leaf: Seq<u8>,
)
    ensures
        spec_path_root(new_leaf, proof) == spec_tree_replace(m, proof, old_leaf, new_leaf).root,
{
}

/// The byte strings of a sequence of 32-byte hashes.
pub open spec fn hash_views(s: Seq<[u8; 32]>) -> Seq<Seq<u8>> {
    s.map_values(|h: [u8; 32]| h@)
}

/// An incrementally updatable Merkle accumulator of height `N`.
#[derive(Clone, Copy, Debug, PartialEq)]
pub struct MerkleTree<const N: usize> {
    /// Current root hash.
    pub root: [u8; 32],
    /// Per level, the hash of the last filled left subtree.
    pub filled_subtrees: [[u8; 32]; N],
    /// Per level, the hash of an all-empty subtree of that depth.
    pub zero_values: [[u8; 32]; N],
    /// Number of leaves appended so far.
    pub next_index: u64,
}

impl<const N: usize> View for MerkleTree<N> {
    type V = TreeModel;

    open spec fn view(&self) -> TreeModel {
        TreeModel {
            root: self.root@,
            filled_subtrees: hash_views(self.filled_subtrees@),
            zero_values: hash_views(self.zero_values@),
            next_index: self.next_index as int,
        }
    }
}

/// A well-formed accumulator of height `N` has one filled-subtree hash and
/// one empty hash per level, and has not outgrown its capacity.
pub open spec fn tree_wf(m: TreeModel, n: nat) -> bool {
    &&& m.filled_subtrees.len() == n
    &&& m.zero_values.len() == n
    &&& 0 <= m.next_index <= pow2(n)
}

/// Relies on `brine_tree::MerkleTree::try_add_leaf`: appends a leaf hash by
/// folding it along the rightmost path, failing exactly when the tree holds
/// its full `2^N` leaves; on failure the tree is unchanged.
#[verifier::external_body]
pub(crate) fn raw_try_add_leaf<const N: usize>(t: &mut MerkleTree<N>, leaf: &[u8; 32]) -> (ok:
    bool)
    requires
        N < 64,
    ensures
        ok <==> old(t)@.next_index < pow2(N as nat),
        ok ==> final(t)@ == spec_tree_add(old(t)@, leaf@),
        !ok ==> *final(t) == *old(t),
{
    let mut inner = brine_tree::MerkleTree::<N> {
        root: brine_tree::Hash::new_from_array(t.root),
        filled_subtrees: t.filled_subtrees.map(brine_tree::Hash::new_from_array),
        zero_values: t.zero_values.map(brine_tree::Hash::new_from_array),
        next_index: t.next_index,
    };
    let ok = inner.try_add_leaf(brine_tree::Leaf::from(*leaf)).is_ok();
    t.root = inner.root.to_bytes();
    t.filled_subtrees = inner.filled_subtrees.map(|h: brine_tree::Hash| h.to_bytes());
    t.next_index = inner.next_index;
    ok
}

/// Relies on `brine_tree::MerkleTree::try_replace_leaf`: succeeds exactly
/// when folding the sibling path onto the old leaf hash reproduces the
/// current root; it then installs the path re-folded over the new leaf
/// hash, rewriting the filled subtrees that lay on the old path. On failure
/// the tree is unchanged.
#[verifier::external_body]
pub(crate) fn raw_try_replace_leaf<const N: usize>(
    t: &mut MerkleTree<N>,
    proof: &[[u8; 32]; N],
    old_leaf: &[u8; 32],
    new_leaf: &[u8; 32],
) -> (ok: bool)
    ensures
        ok <==> spec_path_root(old_leaf@, hash_views(proof@)) == old(t)@.root,
        ok ==> final(t)@ == spec_tree_replace(old(t)@, hash_views(proof@), old_leaf@, new_leaf@),
        !ok ==> *final(t) == *old(t),
{
    let mut inner = brine_tree::MerkleTree::<N> {
        root: brine_tree::Hash::new_from_array(t.root),
        filled_subtrees: t.filled_subtrees.map(brine_tree::Hash::new_from_array),
        zero_values: t.zero_values.map(brine_tree::Hash::new_from_array),
        next_index: t.next_index,
    };
    let ok = inner
        .try_replace_leaf(proof.as_slice(), brine_tree::Leaf::from(*old_leaf), brine_tree::Leaf::from(*new_leaf))
        .is_ok();
    t.root = inner.root.to_bytes();
    t.filled_subtrees = inner.filled_subtrees.map(|h: brine_tree::Hash| h.to_bytes());
    ok
}

/// Relies on `brine_tree::verify`: true exactly when folding the sibling
/// path onto the leaf hash reproduces the root.
#[verifier::external_body]
pub(crate) fn raw_merkle_verify(root: &[u8; 32], proof: &[[u8; 32]], leaf: &[u8; 32]) -> (ok: bool)
    ensures
        ok <==> spec_path_root(leaf@, hash_views(proof@)) == root@,
{
    brine_tree::verify(*root, proof, *leaf)
}

/// Compute the parent hash of a node paired with itself.
fn next_zero(z: &[u8; 32]) -> (r: [u8; 32])
    ensures
        r@ == node_hash(z@, z@),
{
    let mut input: Vec<u8> = Vec::new();
    let tag: [u8; 4] = [0x4E, 0x4F, 0x44, 0x45];
    proof {
        assert(tag@ =~= node_tag());
    }
    crate::hashing::push_bytes(&mut input, tag.as_slice());
    crate::hashing::push_bytes(&mut input, z.as_slice());
    crate::hashing::push_bytes(&mut input, z.as_slice());
    proof {
        lemma_bytes_le_reflexive(z@);
    }
    crate::hashing::blake3_hash(input.as_slice())
}

impl<const N: usize> MerkleTree<N> {
    /// An empty accumulator grown from a 32-byte seed: the leaf-level empty
    /// hash is the seed's digest, each higher level pairs the one below
    /// with itself, and the root is the top empty hash.
    pub fn new(seed: &[u8; 32]) -> (t: MerkleTree<N>)
        requires
            1 <= N < 64,
        ensures
            tree_wf(t@, N as nat),
            t@.next_index == 0,
            forall|i: int|
                0 <= i < N ==> t@.zero_values[i] == spec_zero_at(blake3_of(seed@), i as nat),
            t@.filled_subtrees == t@.zero_values,
            t@.root == t@.zero_values[N - 1],
    {
        let z0 = crate::hashing::blake3_hash(seed.as_slice());
        let mut zeros: [[u8; 32]; N] = [[0u8; 32]; N];
        let mut current = z0;
        let mut i: usize = 0;
        while i < N
            invariant
                0 <= i <= N,
                current@ == spec_zero_at(blake3_of(seed@), i as nat),
                forall|j: int|
                    0 <= j < i ==> #[trigger] zeros@[j]@ == spec_zero_at(blake3_of(seed@), j as nat),
            decreases N - i,
        {
            zeros[i] = current;
            current = next_zero(&current);
            i = i + 1;
        }
        let t = MerkleTree { root: zeros[N - 1], filled_subtrees: zeros, zero_values: zeros, next_index: 0u64 };
        proof {
            assert(t@.filled_subtrees =~= t@.zero_values);
        }
        t
    }

    /// The current root hash.
    pub fn get_root(&self) -> (r: [u8; 32])
        ensures
            r@ == self@.root,
    {
        self.root
    }

    /// The number of leaves appended so far.
    pub fn get_leaf_count(&self) -> (n: u64)
        ensures
            n == self@.next_index,
    {
        self.next_index
    }
}

} // verus!
