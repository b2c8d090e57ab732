//! Domain-separated hashing for challenges, Merkle seeds and leaves.
//!
//! Every digest of the protocol is the blake3 hash of a concatenation of
//! byte strings; `blake3_of` names that digest at the specification level.

use vstd::prelude::*;
use vstd::bytes::{spec_u64_to_le_bytes, u64_to_le_bytes};
use crate::consts::SEGMENT_SIZE;

verus! {

/// The blake3 digest of a byte string.
pub uninterp spec fn blake3_of(input: Seq<u8>) -> Seq<u8>;

/// Relies on `blake3::Hasher`: the digest is 32 bytes and depends on the
/// input bytes alone.
#[verifier::external_body]
pub fn blake3_hash(input: &[u8]) -> (r: [u8; 32])
    ensures
        r@ == blake3_of(input@),
{
    let mut hasher = blake3::Hasher::new();
    hasher.update(input);
    hasher.finalize().into()
}

/// Append the bytes of `src` to `out`.
pub fn push_bytes(out: &mut Vec<u8>, src: &[u8])
    ensures
        final(out)@ == old(out)@ + src@,
{
    let mut i: usize = 0;
    while i < src.len()
        invariant
            0 <= i <= src@.len(),
            out@ == old(out)@ + src@.subrange(0, i as int),
        decreases src@.len() - i,
    {
        out.push(src[i]);
        i = i + 1;
        proof {
            assert(out@ =~= old(out)@ + src@.subrange(0, i as int));
        }
    }
    proof {
        assert(out@ =~= old(out)@ + src@);
    }
}

/// The leaf domain-separation tag, the ASCII bytes of `LEAF`.
pub open spec fn leaf_tag() -> Seq<u8> {
    seq![0x4Cu8, 0x45u8, 0x41u8, 0x46u8]
}

/// The node domain-separation tag, the ASCII bytes of `NODE`.
pub open spec fn node_tag() -> Seq<u8> {
    seq![0x4Eu8, 0x4Fu8, 0x44u8, 0x45u8]
}

/// The tape-seed domain-separation tag, the ASCII bytes of `tape`.
pub open spec fn tape_tag() -> Seq<u8> {
    seq![0x74u8, 0x61u8, 0x70u8, 0x65u8]
}

/// Hash of a segment leaf: the `LEAF` tag, the little-endian 8-byte segment
/// index, and the segment payload, run through blake3.
pub open spec fn spec_leaf_hash(segment_id: u64, segment: Seq<u8>) -> Seq<u8> {
    blake3_of(leaf_tag() + spec_u64_to_le_bytes(segment_id) + segment)
}

/// Hash of a spool leaf: the `LEAF` tag and the packed 32-byte value.
pub open spec fn spec_value_leaf_hash(value: Seq<u8>) -> Seq<u8> {
    blake3_of(leaf_tag() + value)
}

/// The rolling challenge drawn from a predecessor challenge and a salt:
/// blake3 of their concatenation.
pub open spec fn spec_chained_hash(a: Seq<u8>, b: Seq<u8>) -> Seq<u8> {
    blake3_of(a + b)
}

/// Compute the leaf hash committing `segment` at index `segment_id`.
pub fn compute_leaf(segment_id: u64, segment: &[u8; 128]) -> (r: [u8; 32])
    ensures
        r@ == spec_leaf_hash(segment_id, segment@),
{
    let mut input: Vec<u8> = Vec::new();
    let tag: [u8; 4] = [0x4C, 0x45, 0x41, 0x46];
    proof {
        assert(tag@ =~= leaf_tag());
    }
    push_bytes(&mut input, tag.as_slice());
    let id_bytes = u64_to_le_bytes(segment_id);
    push_bytes(&mut input, id_bytes.as_slice());
    push_bytes(&mut input, segment.as_slice());
    blake3_hash(input.as_slice())
}

/// Compute the leaf hash committing a packed 32-byte value in a spool.
pub fn compute_value_leaf(value: &[u8; 32]) -> (r: [u8; 32])
    ensures
        r@ == spec_value_leaf_hash(value@),
{
    let mut input: Vec<u8> = Vec::new();
    let tag: [u8; 4] = [0x4C, 0x45, 0x41, 0x46];
    proof {
        assert(tag@ =~= leaf_tag());
    }
    push_bytes(&mut input, tag.as_slice());
    push_bytes(&mut input, value.as_slice());
    blake3_hash(input.as_slice())
}

/// Compute the per-proof challenge binding the block challenge to one miner.
pub fn compute_challenge(block_challenge: &[u8; 32], miner_challenge: &[u8; 32]) -> (r: [u8; 32])
    ensures
        r@ == spec_chained_hash(block_challenge@, miner_challenge@),
{
    let mut input: Vec<u8> = Vec::new();
    push_bytes(&mut input, block_challenge.as_slice());
    push_bytes(&mut input, miner_challenge.as_slice());
    blake3_hash(input.as_slice())
}

/// Compute the successor of a rolling challenge, salted with the current slot.
pub fn compute_next_challenge(current_challenge: &[u8; 32], current_slot: u64) -> (r: [u8; 32])
    ensures
        r@ == spec_chained_hash(current_challenge@, spec_u64_to_le_bytes(current_slot)),
{
    let mut input: Vec<u8> = Vec::new();
    push_bytes(&mut input, current_challenge.as_slice());
    let slot_bytes = u64_to_le_bytes(current_slot);
    push_bytes(&mut input, slot_bytes.as_slice());
    blake3_hash(input.as_slice())
}

} // verus!
