//! Spool operations: create, destroy, pack, unpack and commit.
//!
//! A spool batches many tape addresses under one second-level Merkle tree
//! so a single committed leaf covers a random pick among thousands of
//! tapes; an xor accumulator of the packed addresses serves the owner as a
//! quick advisory filter.

use vstd::prelude::*;
use vstd::arithmetic::power2::pow2;
use vstd::bytes::{spec_u64_to_le_bytes, u64_to_le_bytes};
use crate::consts::{TAPE_TREE_HEIGHT, TAPE_PROOF_LEN, MAX_TAPES_PER_SPOOL};
use crate::error::TapeError;
use crate::hashing::{blake3_of, spec_value_leaf_hash, compute_value_leaf, push_bytes, blake3_hash};
use crate::merkle::{
    MerkleTree, spec_tree_add, spec_tree_replace, spec_path_root, hash_views, spec_zero_at,
    raw_try_add_leaf, raw_try_replace_leaf, raw_merkle_verify,
};
use crate::state::{Spool, Miner, spool_wf};
use crate::utils::{spec_xor32, xor32};

verus! {

/// The seed of a spool's tape tree, drawn from the owning miner's address,
/// the spool number and the current slot.
pub open spec fn spec_spool_seed(miner_address: Seq<u8>, number: u64, current_slot: u64) -> Seq<
    u8,
> {
    blake3_of(miner_address + spec_u64_to_le_bytes(number) + spec_u64_to_le_bytes(current_slot))
}

/// Allocate a spool owned by `authority`, with an empty tape tree grown
/// from a seed drawn from the miner's address, the number and the slot.
pub fn spool_create(
    authority: &[u8; 32],
    miner_address: &[u8; 32],
    number: u64,
    current_slot: u64,
) -> (s: Spool)
    ensures
        spool_wf(s),
        s.number == number,
        s.authority == *authority,
        s.seed@ == spec_spool_seed(miner_address@, number, current_slot),
        s.contains@ =~= Seq::new(32, |i: int| 0u8),
        s.total_tapes == 0,
        s.last_proof_block == 0,
        s.last_proof_at == 0,
        s.state@.next_index == 0,
        forall|i: int|
            0 <= i < TAPE_TREE_HEIGHT ==> s.state@.zero_values[i] == spec_zero_at(
                blake3_of(s.seed@),
                i as nat,
            ),
        s.state@.filled_subtrees == s.state@.zero_values,
{
    let mut seed_input: Vec<u8> = Vec::new();
    push_bytes(&mut seed_input, miner_address.as_slice());
    let number_bytes = u64_to_le_bytes(number);
    push_bytes(&mut seed_input, number_bytes.as_slice());
    let slot_bytes = u64_to_le_bytes(current_slot);
    push_bytes(&mut seed_input, slot_bytes.as_slice());
    let seed = blake3_hash(seed_input.as_slice());
    let tree = MerkleTree::<TAPE_TREE_HEIGHT>::new(&seed);
    Spool {
        number,
        authority: *authority,
        state: tree,
        seed,
        contains: [0u8; 32],
        total_tapes: 0,
        last_proof_block: 0,
        last_proof_at: 0,
    }
}

/// Whether a spool may be destroyed by `authority`: only its owner may.
pub fn spool_owned_by(spool: &Spool, authority: &[u8; 32]) -> (r: bool)
    ensures
        r == (spool.authority@ == authority@),
{
    crate::utils::bytes32_eq(&spool.authority, authority)
}

/// Pack a tape address into the spool.
///
/// The address becomes a new leaf of the tape tree and is folded into the
/// advisory xor filter. Fails with `SpoolTooManyTapes` when the spool
/// already holds its limit, and with `SpoolPackFailed` when repeated
/// packing and unpacking has exhausted the tree's append capacity; a
/// failed pack changes nothing.
pub fn spool_pack(spool: &mut Spool, value: &[u8; 32]) -> (r: Result<(), TapeError>)
    requires
        spool_wf(*old(spool)),
    ensures
        spool_wf(*final(spool)),
        match r {
            Ok(()) => {
                &&& old(spool).total_tapes < MAX_TAPES_PER_SPOOL
                &&& final(spool).state@ == spec_tree_add(
                    old(spool).state@,
                    spec_value_leaf_hash(value@),
                )
                &&& final(spool).contains@ == spec_xor32(old(spool).contains@, value@)
                &&& final(spool).total_tapes == old(spool).total_tapes + 1
                &&& *final(spool) == (Spool {
                    state: final(spool).state,
                    contains: final(spool).contains,
                    total_tapes: final(spool).total_tapes,
                    ..*old(spool)
                })
            },
            Err(e) => {
                &&& *final(spool) == *old(spool)
                &&& (e == TapeError::SpoolTooManyTapes <==> old(spool).total_tapes
                    >= MAX_TAPES_PER_SPOOL)
                &&& (e == TapeError::SpoolPackFailed <==> old(spool).total_tapes
                    < MAX_TAPES_PER_SPOOL && old(spool).state@.next_index >= pow2(
                    TAPE_TREE_HEIGHT as nat,
                ))
                &&& (e == TapeError::SpoolTooManyTapes || e == TapeError::SpoolPackFailed)
            },
        },
{
    if spool.total_tapes >= MAX_TAPES_PER_SPOOL {
        return Err(TapeError::SpoolTooManyTapes);
    }
    let leaf = compute_value_leaf(value);
    proof {
        vstd::arithmetic::power2::lemma2_to64();
    }
    let ok = raw_try_add_leaf(&mut spool.state, &leaf);
    if !ok {
        return Err(TapeError::SpoolPackFailed);
    }
    spool.contains = xor32(&spool.contains, value);
    spool.total_tapes = spool.total_tapes + 1;
    Ok(())
}

/// Unpack a tape address from the spool, authenticated by a sibling path.
///
/// Succeeds exactly when the path folds the address's leaf to the current
/// root; the leaf is then replaced by the empty leaf, the address is
/// folded back out of the xor filter, and the packed count drops by one.
/// Fails with `SpoolUnpackFailed` on a bad proof; a failed unpack changes
/// nothing.
pub fn spool_unpack(spool: &mut Spool, proof: &[[u8; 32]; TAPE_PROOF_LEN], value: &[u8; 32]) -> (r:
    Result<(), TapeError>)
    requires
        spool_wf(*old(spool)),
    ensures
        spool_wf(*final(spool)),
        match r {
            Ok(()) => {
                &&& spec_path_root(spec_value_leaf_hash(value@), hash_views(proof@)) == old(
                    spool,
                ).state@.root
                &&& final(spool).state@ == spec_tree_replace(
                    old(spool).state@,
                    hash_views(proof@),
                    spec_value_leaf_hash(value@),
                    old(spool).state@.zero_values[0],
                )
                &&& final(spool).contains@ == spec_xor32(old(spool).contains@, value@)
                &&& final(spool).total_tapes == if old(spool).total_tapes > 0 {
                    old(spool).total_tapes - 1
                } else {
                    0int
                }
                &&& *final(spool) == (Spool {
                    state: final(spool).state,
                    contains: final(spool).contains,
                    total_tapes: final(spool).total_tapes,
                    ..*old(spool)
                })
            },
            Err(e) => {
                &&& e == TapeError::SpoolUnpackFailed
                &&& spec_path_root(spec_value_leaf_hash(value@), hash_views(proof@)) != old(
                    spool,
                ).state@.root
                &&& *final(spool) == *old(spool)
            },
        },
{
    let leaf = compute_value_leaf(value);
    let empty_leaf = clone_hash(&spool.state.zero_values[0]);
    proof {
        assert(empty_leaf@ == old(spool).state@.zero_values[0]);
    }
    let ok = raw_try_replace_leaf(&mut spool.state, proof, &leaf, &empty_leaf);
    if !ok {
        return Err(TapeError::SpoolUnpackFailed);
    }
    spool.contains = xor32(&spool.contains, value);
    spool.total_tapes = spool.total_tapes.saturating_sub(1);
    Ok(())
}

/// Copy a 32-byte hash out of a larger structure.
fn clone_hash(h: &[u8; 32]) -> (r: [u8; 32])
    ensures
        r == *h,
{
    *h
}

/// Commit a packed tape address for the next mine.
///
/// Read-only verification that the address is a leaf of the spool's tree;
/// the committed address is stored in the miner record so the next mine
/// can be served against it without re-supplying the proof. Fails with
/// `SpoolCommitFailed` on a bad proof; a failed commit changes nothing.
pub fn spool_commit(
    spool: &Spool,
    miner: &mut Miner,
    proof: &[[u8; 32]; TAPE_PROOF_LEN],
    value: &[u8; 32],
) -> (r: Result<(), TapeError>)
    ensures
        match r {
            Ok(()) => {
                &&& spec_path_root(spec_value_leaf_hash(value@), hash_views(proof@))
                    == spool.state@.root
                &&& *final(miner) == (Miner { commitment: *value, ..*old(miner) })
            },
            Err(e) => {
                &&& e == TapeError::SpoolCommitFailed
                &&& spec_path_root(spec_value_leaf_hash(value@), hash_views(proof@))
                    != spool.state@.root
                &&& *final(miner) == *old(miner)
            },
        },
{
    let leaf = compute_value_leaf(value);
    let ok = raw_merkle_verify(&spool.state.root, proof.as_slice(), &leaf);
    if !ok {
        return Err(TapeError::SpoolCommitFailed);
    }
    miner.commitment = *value;
    Ok(())
}

} // verus!
