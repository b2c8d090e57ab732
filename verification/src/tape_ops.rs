//! Tape lifecycle operations: create, write, update, set header, finalize
//! and subsidize.

use vstd::prelude::*;
use vstd::arithmetic::power2::pow2;
use vstd::bytes::{spec_u64_to_le_bytes, u64_to_le_bytes};
use vstd::slice::slice_subrange;
use crate::consts::{SEGMENT_SIZE, SEGMENT_TREE_HEIGHT, MAX_SEGMENTS_PER_TAPE};
use crate::error::TapeError;
use crate::event::{WriteEvent, UpdateEvent, FinalizeEvent};
use crate::hashing::{blake3_of, tape_tag, spec_leaf_hash, compute_leaf, push_bytes, blake3_hash};
use crate::merkle::{
    MerkleTree, spec_tree_add, spec_tree_add_seq, spec_tree_replace, spec_path_root, hash_views,
    spec_zero_at, tree_wf, raw_try_add_leaf, raw_try_replace_leaf, lemma_tree_add_seq_push,
    lemma_tree_add_seq_wf,
};
use crate::state::{Tape, Writer, Archive, TapeState, writer_paired_wf, tape_wf};
use crate::types::ProofPath;
use crate::utils::spec_padded;

verus! {

/// Number of 128-byte segments needed to store `len` bytes.
pub open spec fn spec_num_segments(len: nat) -> nat {
    (len + 127) / 128
}

/// The `i`-th 128-byte chunk of `data`, zero-padded at the tail.
pub open spec fn spec_chunk(data: Seq<u8>, i: int) -> Seq<u8> {
    let lo = i * 128;
    let hi = if lo + 128 <= data.len() {
        lo + 128
    } else {
        data.len() as int
    };
    spec_padded::<SEGMENT_SIZE>(data.subrange(lo, hi))
}

/// The leaf hashes a write of `data` appends to a tape already holding
/// `start` segments.
pub open spec fn spec_write_leaves(start: u64, data: Seq<u8>) -> Seq<Seq<u8>> {
    Seq::new(
        spec_num_segments(data.len()),
        |i: int| spec_leaf_hash((start + i) as u64, spec_chunk(data, i)),
    )
}

/// The Merkle seed of a tape created by `authority` under `name` at
/// `current_slot`.
pub open spec fn spec_merkle_seed(authority: Seq<u8>, name: Seq<u8>, current_slot: u64) -> Seq<u8> {
    blake3_of(tape_tag() + authority + name + spec_u64_to_le_bytes(current_slot))
}

/// Allocate a tape and its paired writer.
///
/// The tape starts in the `Created` state with no segments and no balance;
/// its Merkle seed is drawn from the creator, the name and the current
/// slot, and the writer starts as the empty segment tree grown from that
/// seed.
pub fn tape_create(
    authority: &[u8; 32],
    name: &[u8; 32],
    tape_address: &[u8; 32],
    current_slot: u64,
) -> (r: (Tape, Writer))
    ensures
        tape_wf(r.0),
        writer_paired_wf(r.1, r.0),
        r.0.number == 0,
        r.0.state == TapeState::Created.spec_code(),
        r.0.authority == *authority,
        r.0.name == *name,
        r.0.merkle_seed@ == spec_merkle_seed(authority@, name@, current_slot),
        r.0.merkle_root@ == r.1.state@.root,
        r.0.header@ =~= Seq::new(64, |i: int| 0u8),
        r.0.first_slot == current_slot,
        r.0.tail_slot == current_slot,
        r.0.balance == 0,
        r.0.last_rent_block == 0,
        r.0.total_segments == 0,
        r.1.tape == *tape_address,
        r.1.state@.next_index == 0,
        forall|i: int|
            0 <= i < SEGMENT_TREE_HEIGHT ==> r.1.state@.zero_values[i] == spec_zero_at(
                blake3_of(r.0.merkle_seed@),
                i as nat,
            ),
        r.1.state@.filled_subtrees == r.1.state@.zero_values,
{
    let mut seed_input: Vec<u8> = Vec::new();
    let tag: [u8; 4] = [0x74, 0x61, 0x70, 0x65];
    proof {
        assert(tag@ =~= tape_tag());
    }
    push_bytes(&mut seed_input, tag.as_slice());
    push_bytes(&mut seed_input, authority.as_slice());
    push_bytes(&mut seed_input, name.as_slice());
    let slot_bytes = u64_to_le_bytes(current_slot);
    push_bytes(&mut seed_input, slot_bytes.as_slice());
    let merkle_seed = blake3_hash(seed_input.as_slice());

    let tree = MerkleTree::<SEGMENT_TREE_HEIGHT>::new(&merkle_seed);
    let root = tree.get_root();
    let tape = Tape {
        number: 0,
        state: TapeState::Created.code(),
        authority: *authority,
        name: *name,
        merkle_seed,
        merkle_root: root,
        header: [0u8; 64],
        first_slot: current_slot,
        tail_slot: current_slot,
        balance: 0,
        last_rent_block: 0,
        total_segments: 0,
    };
    let writer = Writer { tape: *tape_address, state: tree };
    (tape, writer)
}

/// Append `data` to a tape through its paired writer.
///
/// The data is split into 128-byte segments, the last zero-padded; each
/// becomes a leaf of the writer's segment tree, and the tape mirrors the
/// new root. The first write moves the tape from `Created` to `Writing`.
/// Fails with `UnexpectedState` unless the tape is in `Created` or
/// `Writing`, and with `TapeTooLong` when the write would push the tape
/// over its segment capacity; a failed write changes nothing.
pub fn tape_write(
    tape: &mut Tape,
    writer: &mut Writer,
    data: &[u8],
    tape_address: &[u8; 32],
    current_slot: u64,
) -> (r: Result<WriteEvent, TapeError>)
    requires
        tape_wf(*old(tape)),
        writer_paired_wf(*old(writer), *old(tape)),
    ensures
        tape_wf(*final(tape)),
        writer_paired_wf(*final(writer), *final(tape)),
        match r {
            Ok(ev) => {
                let leaves = spec_write_leaves(old(tape).total_segments, data@);
                &&& (old(tape).state == TapeState::Created.spec_code() || old(tape).state
                    == TapeState::Writing.spec_code())
                &&& old(tape).total_segments + leaves.len() <= MAX_SEGMENTS_PER_TAPE
                &&& final(writer).state@ == spec_tree_add_seq(old(writer).state@, leaves)
                &&& final(writer).tape == old(writer).tape
                &&& *final(tape) == (Tape {
                    state: TapeState::Writing.spec_code(),
                    merkle_root: final(tape).merkle_root,
                    tail_slot: current_slot,
                    total_segments: (old(tape).total_segments + leaves.len()) as u64,
                    ..*old(tape)
                })
                &&& final(tape).merkle_root@ == final(writer).state@.root
                &&& ev == (WriteEvent {
                    num_added: leaves.len() as u64,
                    num_total: final(tape).total_segments,
                    prev_slot: old(tape).tail_slot,
                    address: *tape_address,
                })
            },
            Err(e) => {
                &&& *final(tape) == *old(tape)
                &&& *final(writer) == *old(writer)
                &&& (e == TapeError::UnexpectedState || e == TapeError::TapeTooLong)
                &&& (e == TapeError::UnexpectedState <==> old(tape).state
                    != TapeState::Created.spec_code() && old(tape).state
                    != TapeState::Writing.spec_code())
                &&& (e == TapeError::TapeTooLong ==> old(tape).total_segments
                    + spec_num_segments(data@.len()) > MAX_SEGMENTS_PER_TAPE)
            },
        },
{
    if tape.state != TapeState::Created.code() && tape.state != TapeState::Writing.code() {
        return Err(TapeError::UnexpectedState);
    }
    let len = data.len();
    let num_segments: usize = len / 128 + (if len % 128 != 0 {
        1
    } else {
        0
    });
    proof {
        assert(num_segments == spec_num_segments(data@.len()));
    }
    if num_segments as u64 > MAX_SEGMENTS_PER_TAPE
        || tape.total_segments > MAX_SEGMENTS_PER_TAPE - num_segments as u64 {
        return Err(TapeError::TapeTooLong);
    }
    let ghost leaves = spec_write_leaves(tape.total_segments, data@);
    let start = tape.total_segments;
    let mut i: usize = 0;
    while i < num_segments
        invariant
            0 <= i <= num_segments,
            len == data@.len(),
            num_segments == spec_num_segments(data@.len()),
            start + num_segments <= MAX_SEGMENTS_PER_TAPE,
            start == old(tape).total_segments,
            leaves == spec_write_leaves(start, data@),
            leaves.len() == num_segments,
            writer.state@ == spec_tree_add_seq(old(writer).state@, leaves.take(i as int)),
            writer.tape == old(writer).tape,
            writer.state@.next_index == start + i,
            tree_wf(writer.state@, SEGMENT_TREE_HEIGHT as nat),
            writer.state@.zero_values == old(writer).state@.zero_values,
            *tape == *old(tape),
            tape_wf(*tape),
            writer_paired_wf(*old(writer), *old(tape)),
        decreases num_segments - i,
    {
        let lo = i * 128;
        let hi = if lo + 128 <= len {
            lo + 128
        } else {
            len
        };
        proof {
            assert(lo < len) by (nonlinear_arith)
                requires
                    i < num_segments,
                    num_segments == (len + 127) / 128,
                    lo == i * 128,
                    len <= usize::MAX,
            ;
        }
        let chunk_slice = slice_subrange(data, lo, hi);
        let segment: [u8; 128] = crate::utils::padded_array::<SEGMENT_SIZE>(chunk_slice);
        proof {
            assert(segment@ == spec_chunk(data@, i as int));
        }
        let leaf = compute_leaf(start + i as u64, &segment);
        proof {
            assert(leaf@ == leaves[i as int]);
            assert(writer.state@.next_index < pow2(SEGMENT_TREE_HEIGHT as nat)) by {
                vstd::arithmetic::power2::lemma2_to64();
            }
        }
        let ok = raw_try_add_leaf(&mut writer.state, &leaf);
        if !ok {
            proof {
                assert(false);
            }
            return Err(TapeError::WriteFailed);
        }
        proof {
            lemma_tree_add_seq_push(old(writer).state@, leaves.take(i as int), leaves[i as int]);
            assert(leaves.take(i as int).push(leaves[i as int]) =~= leaves.take(i as int + 1));
            lemma_tree_add_seq_wf(
                old(writer).state@,
                leaves.take(i as int + 1),
                SEGMENT_TREE_HEIGHT as nat,
            );
        }
        i = i + 1;
    }
    proof {
        assert(leaves.take(num_segments as int) =~= leaves);
    }
    let new_total = start + num_segments as u64;
    let prev_slot = tape.tail_slot;
    tape.state = TapeState::Writing.code();
    tape.merkle_root = writer.state.get_root();
    tape.tail_slot = current_slot;
    tape.total_segments = new_total;
    Ok(WriteEvent { num_added: num_segments as u64, num_total: new_total, prev_slot, address: *tape_address })
}

/// Replace one segment of a `Writing` tape, authenticated by a sibling
/// path against the current root.
///
/// Succeeds exactly when the path folds the old segment's leaf to the
/// current root; the tape then mirrors the re-folded root. Fails with
/// `UnexpectedState` unless the tape is `Writing`, and with `WriteFailed`
/// on a bad proof; a failed update changes nothing.
pub fn tape_update(
    tape: &mut Tape,
    writer: &mut Writer,
    segment_number: u64,
    old_data: &[u8; 128],
    new_data: &[u8; 128],
    proof: &ProofPath,
    tape_address: &[u8; 32],
    current_slot: u64,
) -> (r: Result<UpdateEvent, TapeError>)
    requires
        tape_wf(*old(tape)),
        writer_paired_wf(*old(writer), *old(tape)),
    ensures
        tape_wf(*final(tape)),
        writer_paired_wf(*final(writer), *final(tape)),
        match r {
            Ok(ev) => {
                &&& old(tape).state == TapeState::Writing.spec_code()
                &&& spec_path_root(
                    spec_leaf_hash(segment_number, old_data@),
                    hash_views(proof.0@),
                ) == old(writer).state@.root
                &&& final(writer).state@ == spec_tree_replace(
                    old(writer).state@,
                    hash_views(proof.0@),
                    spec_leaf_hash(segment_number, old_data@),
                    spec_leaf_hash(segment_number, new_data@),
                )
                &&& final(writer).tape == old(writer).tape
                &&& *final(tape) == (Tape {
                    merkle_root: final(tape).merkle_root,
                    tail_slot: current_slot,
                    ..*old(tape)
                })
                &&& final(tape).merkle_root@ == final(writer).state@.root
                &&& ev == (UpdateEvent {
                    segment_number,
                    prev_slot: old(tape).tail_slot,
                    address: *tape_address,
                })
            },
            Err(e) => {
                &&& *final(tape) == *old(tape)
                &&& *final(writer) == *old(writer)
                &&& (e == TapeError::UnexpectedState <==> old(tape).state
                    != TapeState::Writing.spec_code())
                &&& (e == TapeError::WriteFailed <==> old(tape).state
                    == TapeState::Writing.spec_code() && spec_path_root(
                    spec_leaf_hash(segment_number, old_data@),
                    hash_views(proof.0@),
                ) != old(writer).state@.root)
                &&& (e == TapeError::UnexpectedState || e == TapeError::WriteFailed)
            },
        },
{
    if tape.state != TapeState::Writing.code() {
        return Err(TapeError::UnexpectedState);
    }
    let old_leaf = compute_leaf(segment_number, old_data);
    let new_leaf = compute_leaf(segment_number, new_data);
    let ok = raw_try_replace_leaf(&mut writer.state, &proof.0, &old_leaf, &new_leaf);
    if !ok {
        return Err(TapeError::WriteFailed);
    }
    let prev_slot = tape.tail_slot;
    tape.merkle_root = writer.state.get_root();
    tape.tail_slot = current_slot;
    Ok(UpdateEvent { segment_number, prev_slot, address: *tape_address })
}

/// Append one segment's leaf to a segment tree, failing with
/// `WriteFailed` when the tree is full.
pub fn write_segment(
    tree: &mut crate::state::SegmentTree,
    segment_id: u64,
    segment: &[u8; 128],
) -> (r: Result<(), TapeError>)
    ensures
        match r {
            Ok(()) => {
                &&& old(tree)@.next_index < pow2(SEGMENT_TREE_HEIGHT as nat)
                &&& final(tree)@ == crate::merkle::spec_tree_add(
                    old(tree)@,
                    spec_leaf_hash(segment_id, segment@),
                )
            },
            Err(e) => {
                &&& e == TapeError::WriteFailed
                &&& old(tree)@.next_index >= pow2(SEGMENT_TREE_HEIGHT as nat)
                &&& *final(tree) == *old(tree)
            },
        },
{
    let leaf = compute_leaf(segment_id, segment);
    if raw_try_add_leaf(tree, &leaf) {
        Ok(())
    } else {
        Err(TapeError::WriteFailed)
    }
}

/// Replace one segment's leaf in a segment tree through its sibling path,
/// failing with `WriteFailed` when the path does not reproduce the
/// current root.
pub fn update_segment(
    tree: &mut crate::state::SegmentTree,
    segment_id: u64,
    old_segment: &[u8; 128],
    new_segment: &[u8; 128],
    proof: &[[u8; 32]; 18],
) -> (r: Result<(), TapeError>)
    ensures
        match r {
            Ok(()) => {
                &&& spec_path_root(spec_leaf_hash(segment_id, old_segment@), hash_views(proof@))
                    == old(tree)@.root
                &&& final(tree)@ == spec_tree_replace(
                    old(tree)@,
                    hash_views(proof@),
                    spec_leaf_hash(segment_id, old_segment@),
                    spec_leaf_hash(segment_id, new_segment@),
                )
            },
            Err(e) => {
                &&& e == TapeError::WriteFailed
                &&& spec_path_root(spec_leaf_hash(segment_id, old_segment@), hash_views(proof@))
                    != old(tree)@.root
                &&& *final(tree) == *old(tree)
            },
        },
{
    let old_leaf = compute_leaf(segment_id, old_segment);
    let new_leaf = compute_leaf(segment_id, new_segment);
    if raw_try_replace_leaf(tree, proof, &old_leaf, &new_leaf) {
        Ok(())
    } else {
        Err(TapeError::WriteFailed)
    }
}

/// Check that a segment is committed at the given index by a tape's
/// Merkle root: its leaf hash folded along the sibling path must
/// reproduce the root.
pub fn segment_verify(
    merkle_root: &[u8; 32],
    segment_number: u64,
    segment: &[u8; 128],
    proof: &ProofPath,
) -> (r: bool)
    ensures
        r == (spec_path_root(spec_leaf_hash(segment_number, segment@), hash_views(proof.0@))
            == merkle_root@),
{
    let leaf = compute_leaf(segment_number, segment);
    crate::merkle::raw_merkle_verify(merkle_root, proof.0.as_slice(), &leaf)
}

/// Overwrite a tape's opaque header; refused once the tape is finalized.
pub fn tape_set_header(tape: &mut Tape, header: &[u8; 64]) -> (r: Result<(), TapeError>)
    ensures
        match r {
            Ok(()) => {
                &&& old(tape).state != TapeState::Finalized.spec_code()
                &&& *final(tape) == (Tape { header: *header, ..*old(tape) })
            },
            Err(e) => {
                &&& e == TapeError::UnexpectedState
                &&& old(tape).state == TapeState::Finalized.spec_code()
                &&& *final(tape) == *old(tape)
            },
        },
{
    if tape.state == TapeState::Finalized.code() {
        return Err(TapeError::UnexpectedState);
    }
    tape.header = *header;
    Ok(())
}

/// Finalize a `Writing` tape, making it immutable and eligible for recall.
///
/// Requires the balance to pre-fund a year of rent; the archive then
/// counts the tape and its segments, the tape takes the next one-based id,
/// and rent accounting starts at the current block. Fails with
/// `UnexpectedState` unless the tape is `Writing` and with
/// `InsufficientRent` below the funding threshold; a failed finalize
/// changes nothing.
pub fn tape_finalize(
    tape: &mut Tape,
    archive: &mut Archive,
    tape_address: &[u8; 32],
    current_block: u64,
) -> (r: Result<FinalizeEvent, TapeError>)
    ensures
        match r {
            Ok(ev) => {
                &&& old(tape).state == TapeState::Writing.spec_code()
                &&& old(tape).spec_can_finalize()
                &&& final(archive).tapes_stored == if old(archive).tapes_stored + 1 <= u64::MAX {
                    old(archive).tapes_stored + 1
                } else {
                    u64::MAX as int
                }
                &&& final(archive).segments_stored == if old(archive).segments_stored + old(
                    tape,
                ).total_segments <= u64::MAX {
                    old(archive).segments_stored + old(tape).total_segments
                } else {
                    u64::MAX as int
                }
                &&& *final(tape) == (Tape {
                    number: final(archive).tapes_stored,
                    state: TapeState::Finalized.spec_code(),
                    last_rent_block: current_block,
                    ..*old(tape)
                })
                &&& ev == (FinalizeEvent { tape: final(archive).tapes_stored, address: *tape_address })
            },
            Err(e) => {
                &&& *final(tape) == *old(tape)
                &&& *final(archive) == *old(archive)
                &&& (e == TapeError::UnexpectedState <==> old(tape).state
                    != TapeState::Writing.spec_code())
                &&& (e == TapeError::InsufficientRent <==> old(tape).state
                    == TapeState::Writing.spec_code() && !old(tape).spec_can_finalize())
                &&& (e == TapeError::UnexpectedState || e == TapeError::InsufficientRent)
            },
        },
{
    if tape.state != TapeState::Writing.code() {
        return Err(TapeError::UnexpectedState);
    }
    if !tape.can_finalize() {
        return Err(TapeError::InsufficientRent);
    }
    archive.tapes_stored = archive.tapes_stored.saturating_add(1);
    archive.segments_stored = archive.segments_stored.saturating_add(tape.total_segments);
    tape.number = archive.tapes_stored;
    tape.state = TapeState::Finalized.code();
    tape.last_rent_block = current_block;
    Ok(FinalizeEvent { tape: tape.number, address: *tape_address })
}

/// Add `amount` of reward tokens to a tape's rent balance, saturating at
/// the largest representable balance. Permitted in any state.
pub fn tape_subsidize(tape: &mut Tape, amount: u64) -> (r: Result<(), TapeError>)
    ensures
        r == Ok::<(), TapeError>(()),
        *final(tape) == (Tape {
            balance: if old(tape).balance + amount <= u64::MAX {
                (old(tape).balance + amount) as u64
            } else {
                u64::MAX
            },
            ..*old(tape)
        }),
{
    tape.balance = tape.balance.saturating_add(amount);
    Ok(())
}

} // verus!
