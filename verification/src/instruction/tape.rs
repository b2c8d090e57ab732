//! Payloads of the tape instructions, and their parsers.

use vstd::prelude::*;
use crate::consts::SEGMENT_PROOF_LEN;
use crate::types::ProofPath;
use crate::utils::{read_array, read_u64_le, read_hashes};
use vstd::bytes::spec_u64_from_le_bytes;

verus! {

/// Payload of the tape-create instruction.
#[derive(Clone, Copy, Debug, PartialEq)]
pub struct Create {
    /// NUL-padded tape name.
    pub name: [u8; 32],
}

/// Payload of the tape-write instruction; the raw data to append follows
/// the discriminator directly.
#[derive(Clone, Copy, Debug, PartialEq)]
pub struct Write {}

/// Payload of the tape-update instruction.
#[derive(Clone, Copy, Debug, PartialEq)]
pub struct Update {
    /// Index of the segment to replace.
    pub segment_number: u64,
    /// The segment's current content.
    pub old_data: [u8; 128],
    /// The segment's new content.
    pub new_data: [u8; 128],
    /// Sibling path of the segment against the current root.
    pub proof: ProofPath,
}

/// Payload of the tape-finalize instruction.
#[derive(Clone, Copy, Debug, PartialEq)]
pub struct Finalize {}

/// Payload of the set-header instruction.
#[derive(Clone, Copy, Debug, PartialEq)]
pub struct SetHeader {
    /// The new opaque header.
    pub header: [u8; 64],
}

/// Payload of the subsidize instruction.
#[derive(Clone, Copy, Debug, PartialEq)]
pub struct Subsidize {
    /// Token amount added to the tape's rent balance.
    pub amount: u64,
}

/// Parse a tape-create payload: exactly the 32-byte name.
pub fn parse_create(data: &[u8]) -> (r: Option<Create>)
    ensures
        match r {
            Some(c) => data@.len() == 32 && c.name@ == data@,
            None => data@.len() != 32,
        },
{
    if data.len() != 32 {
        return None;
    }
    let name = read_array::<32>(data, 0);
    proof {
        assert(name@ =~= data@);
    }
    Some(Create { name })
}

/// Parse a tape-update payload: the little-endian segment index, the old
/// and new segment contents, and the sibling path.
pub fn parse_update(data: &[u8]) -> (r: Option<Update>)
    ensures
        match r {
            Some(u) => {
                &&& data@.len() == 840
                &&& u.segment_number == spec_u64_from_le_bytes(data@.subrange(0, 8))
                &&& u.old_data@ == data@.subrange(8, 136)
                &&& u.new_data@ == data@.subrange(136, 264)
                &&& forall|i: int|
                    0 <= i < SEGMENT_PROOF_LEN ==> #[trigger] u.proof.0@[i]@ == data@.subrange(
                        264 + 32 * i,
                        264 + 32 * i + 32,
                    )
            },
            None => data@.len() != 840,
        },
{
    if data.len() != 840 {
        return None;
    }
    let segment_number = read_u64_le(data, 0);
    let old_data = read_array::<128>(data, 8);
    let new_data = read_array::<128>(data, 136);
    let proof = ProofPath(read_hashes::<SEGMENT_PROOF_LEN>(data, 264));
    Some(Update { segment_number, old_data, new_data, proof })
}

/// Parse a set-header payload: exactly the 64-byte header.
pub fn parse_set_header(data: &[u8]) -> (r: Option<SetHeader>)
    ensures
        match r {
            Some(s) => data@.len() == 64 && s.header@ == data@,
            None => data@.len() != 64,
        },
{
    if data.len() != 64 {
        return None;
    }
    let header = read_array::<64>(data, 0);
    proof {
        assert(header@ =~= data@);
    }
    Some(SetHeader { header })
}

/// Parse a subsidize payload: the little-endian token amount.
pub fn parse_subsidize(data: &[u8]) -> (r: Option<Subsidize>)
    ensures
        match r {
            Some(s) => data@.len() == 8 && s.amount == spec_u64_from_le_bytes(data@),
            None => data@.len() != 8,
        },
{
    if data.len() != 8 {
        return None;
    }
    let amount = read_u64_le(data, 0);
    proof {
        assert(data@.subrange(0, 8) =~= data@);
    }
    Some(Subsidize { amount })
}

} // verus!
