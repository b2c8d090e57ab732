//! Payloads of the program-level instructions, and their parsers.

use vstd::prelude::*;
use crate::utils::read_u64_le;
use vstd::bytes::spec_u64_from_le_bytes;

verus! {

/// Payload of the initialize instruction.
#[derive(Clone, Copy, Debug, PartialEq)]
pub struct Initialize {}

/// Payload of the airdrop instruction.
#[derive(Clone, Copy, Debug, PartialEq)]
pub struct Airdrop {
    /// Token amount to mint to the beneficiary.
    pub amount: u64,
}

/// Parse an airdrop payload: the little-endian token amount.
pub fn parse_airdrop(data: &[u8]) -> (r: Option<Airdrop>)
    ensures
        match r {
            Some(a) => data@.len() == 8 && a.amount == spec_u64_from_le_bytes(data@),
            None => data@.len() != 8,
        },
{
    if data.len() != 8 {
        return None;
    }
    let amount = read_u64_le(data, 0);
    proof {
        assert(data@.subrange(0, 8) =~= data@);
    }
    Some(Airdrop { amount })
}

} // verus!
