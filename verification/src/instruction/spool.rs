//! Payloads of the spool instructions, and their parsers.

use vstd::prelude::*;
use crate::consts::TAPE_PROOF_LEN;
use crate::utils::{read_array, read_u64_le, read_hashes};
use vstd::bytes::spec_u64_from_le_bytes;

verus! {

/// Payload of the spool-create instruction.
#[derive(Clone, Copy, Debug, PartialEq)]
pub struct Create {
    /// Owner-chosen spool number.
    pub number: u64,
}

/// Payload of the spool-destroy instruction.
#[derive(Clone, Copy, Debug, PartialEq)]
pub struct Destroy {
    /// Owner-chosen spool number.
    pub number: u64,
}

/// Payload of the spool-pack instruction.
#[derive(Clone, Copy, Debug, PartialEq)]
pub struct Pack {
    /// Tape address to pack.
    pub value: [u8; 32],
}

/// Payload of the spool-unpack instruction.
#[derive(Clone, Copy, Debug, PartialEq)]
pub struct Unpack {
    /// Leaf index of the packed address.
    pub index: u64,
    /// Sibling path of the packed address.
    pub proof: [[u8; 32]; TAPE_PROOF_LEN],
    /// Tape address to unpack.
    pub value: [u8; 32],
}

/// Payload of the spool-commit instruction.
#[derive(Clone, Copy, Debug, PartialEq)]
pub struct Commit {
    /// Leaf index of the committed address.
    pub index: u64,
    /// Sibling path of the committed address.
    pub proof: [[u8; 32]; TAPE_PROOF_LEN],
    /// Tape address to commit for the next mine.
    pub value: [u8; 32],
}

/// Parse a spool-create payload: the little-endian spool number.
pub fn parse_create(data: &[u8]) -> (r: Option<Create>)
    ensures
        match r {
            Some(c) => data@.len() == 8 && c.number == spec_u64_from_le_bytes(data@),
            None => data@.len() != 8,
        },
{
    if data.len() != 8 {
        return None;
    }
    let number = read_u64_le(data, 0);
    proof {
        assert(data@.subrange(0, 8) =~= data@);
    }
    Some(Create { number })
}

/// Parse a spool-destroy payload: the little-endian spool number.
pub fn parse_destroy(data: &[u8]) -> (r: Option<Destroy>)
    ensures
        match r {
            Some(c) => data@.len() == 8 && c.number == spec_u64_from_le_bytes(data@),
            None => data@.len() != 8,
        },
{
    if data.len() != 8 {
        return None;
    }
    let number = read_u64_le(data, 0);
    proof {
        assert(data@.subrange(0, 8) =~= data@);
    }
    Some(Destroy { number })
}

/// Parse a spool-pack payload: exactly the 32-byte tape address.
pub fn parse_pack(data: &[u8]) -> (r: Option<Pack>)
    ensures
        match r {
            Some(p) => data@.len() == 32 && p.value@ == data@,
            None => data@.len() != 32,
        },
{
    if data.len() != 32 {
        return None;
    }
    let value = read_array::<32>(data, 0);
    proof {
        assert(value@ =~= data@);
    }
    Some(Pack { value })
}

/// Parse a spool-unpack payload: the leaf index, the sibling path and the
/// address.
pub fn parse_unpack(data: &[u8]) -> (r: Option<Unpack>)
    ensures
        match r {
            Some(u) => {
                &&& data@.len() == 360
                &&& u.index == spec_u64_from_le_bytes(data@.subrange(0, 8))
                &&& forall|i: int|
                    0 <= i < TAPE_PROOF_LEN ==> #[trigger] u.proof@[i]@ == data@.subrange(
                        8 + 32 * i,
                        8 + 32 * i + 32,
                    )
                &&& u.value@ == data@.subrange(328, 360)
            },
            None => data@.len() != 360,
        },
{
    if data.len() != 360 {
        return None;
    }
    let index = read_u64_le(data, 0);
    let proof = read_hashes::<TAPE_PROOF_LEN>(data, 8);
    let value = read_array::<32>(data, 328);
    Some(Unpack { index, proof, value })
}

/// Parse a spool-commit payload: the leaf index, the sibling path and the
/// address.
pub fn parse_commit(data: &[u8]) -> (r: Option<Commit>)
    ensures
        match r {
            Some(c) => {
                &&& data@.len() == 360
                &&& c.index == spec_u64_from_le_bytes(data@.subrange(0, 8))
                &&& forall|i: int|
                    0 <= i < TAPE_PROOF_LEN ==> #[trigger] c.proof@[i]@ == data@.subrange(
                        8 + 32 * i,
                        8 + 32 * i + 32,
                    )
                &&& c.value@ == data@.subrange(328, 360)
            },
            None => data@.len() != 360,
        },
{
    if data.len() != 360 {
        return None;
    }
    let index = read_u64_le(data, 0);
    let proof = read_hashes::<TAPE_PROOF_LEN>(data, 8);
    let value = read_array::<32>(data, 328);
    Some(Commit { index, proof, value })
}

} // verus!
