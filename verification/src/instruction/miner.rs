//! Payloads of the miner instructions, and their parsers.

use vstd::prelude::*;
use crate::consts::SEGMENT_PROOF_LEN;
use crate::types::{PoW, PoA, ProofPath};
use crate::utils::{read_array, read_u64_le, read_hashes};
use vstd::bytes::spec_u64_from_le_bytes;

verus! {

/// Payload of the miner-register instruction.
#[derive(Clone, Copy, Debug, PartialEq)]
pub struct Register {
    /// NUL-padded miner name.
    pub name: [u8; 32],
}

/// Raw register payload as it sits in the instruction data.
#[derive(Clone, Copy, Debug, PartialEq)]
pub struct RegisterMinerIxData {
    /// NUL-padded miner name.
    pub name: [u8; 32],
}

/// Payload of the miner-unregister instruction.
#[derive(Clone, Copy, Debug, PartialEq)]
pub struct Unregister {}

/// Payload of the mine instruction: the dual proof.
#[derive(Clone, Copy, Debug, PartialEq)]
pub struct Mine {
    /// Proof of work over the per-miner challenge.
    pub pow: PoW,
    /// Proof of access to the recalled segment.
    pub poa: PoA,
}

/// Payload of the claim instruction.
#[derive(Clone, Copy, Debug, PartialEq)]
pub struct Claim {
    /// Token amount to withdraw from unclaimed rewards.
    pub amount: u64,
}

/// Parse a register payload: exactly the 32-byte name.
pub fn parse_register(data: &[u8]) -> (r: Option<Register>)
    ensures
        match r {
            Some(p) => data@.len() == 32 && p.name@ == data@,
            None => data@.len() != 32,
        },
{
    if data.len() != 32 {
        return None;
    }
    let name = read_array::<32>(data, 0);
    proof {
        assert(name@ =~= data@);
    }
    Some(Register { name })
}

/// Parse a mine payload: the proof-of-work digest and nonce, then the
/// packing bump, seeds, nonces and the segment's sibling path.
pub fn parse_mine(data: &[u8]) -> (r: Option<Mine>)
    ensures
        match r {
            Some(m) => {
                &&& data@.len() == 752
                &&& m.pow.digest@ == data@.subrange(0, 16)
                &&& m.pow.nonce@ == data@.subrange(16, 24)
                &&& m.poa.bump@ == data@.subrange(24, 32)
                &&& m.poa.seed@ == data@.subrange(32, 48)
                &&& m.poa.nonce@ == data@.subrange(48, 176)
                &&& forall|i: int|
                    0 <= i < SEGMENT_PROOF_LEN ==> #[trigger] m.poa.path.0@[i]@ == data@.subrange(
                        176 + 32 * i,
                        176 + 32 * i + 32,
                    )
            },
            None => data@.len() != 752,
        },
{
    if data.len() != 752 {
        return None;
    }
    let digest = read_array::<16>(data, 0);
    let nonce = read_array::<8>(data, 16);
    let bump = read_array::<8>(data, 24);
    let seed = read_array::<16>(data, 32);
    let packing_nonce = read_array::<128>(data, 48);
    let path = ProofPath(read_hashes::<SEGMENT_PROOF_LEN>(data, 176));
    Some(
        Mine {
            pow: PoW { digest, nonce },
            poa: PoA { bump, seed, nonce: packing_nonce, path },
        },
    )
}

/// Parse a claim payload: the little-endian token amount.
pub fn parse_claim(data: &[u8]) -> (r: Option<Claim>)
    ensures
        match r {
            Some(c) => data@.len() == 8 && c.amount == spec_u64_from_le_bytes(data@),
            None => data@.len() != 8,
        },
{
    if data.len() != 8 {
        return None;
    }
    let amount = read_u64_le(data, 0);
    proof {
        assert(data@.subrange(0, 8) =~= data@);
    }
    Some(Claim { amount })
}

} // verus!
