//! Proof-of-access: reconstructing a packed segment from a miner-bound
//! packing solution.
//!
//! A packed segment stores, per byte, a nonce such that the first byte of
//! blake3(pubkey || bump || group seed || nonce) equals the original byte;
//! reconstruction therefore depends on the solution and the miner's public
//! key alone.

use vstd::prelude::*;
use crate::hashing::blake3_of;

verus! {

/// One reconstructed segment byte: the first byte of the digest of the
/// miner key, the bump, the group seed and the byte's nonce.
pub open spec fn spec_packed_byte(pubkey: Seq<u8>, bump: u8, seed: u8, nonce: u8) -> u8 {
    blake3_of(pubkey + seq![bump] + seq![seed] + seq![nonce])[0]
}

/// The whole reconstructed 128-byte segment: byte `i` uses the seed of its
/// 8-byte group and its own nonce.
pub open spec fn spec_unpacked_segment(
    pubkey: Seq<u8>,
    bump: u8,
    seeds: Seq<u8>,
    nonces: Seq<u8>,
) -> Seq<u8> {
    Seq::new(128, |i: int| spec_packed_byte(pubkey, bump, seeds[i / 8], nonces[i]))
}

/// Relies on `packx::Solution::unpack`: reconstructs the 128-byte segment
/// bytewise from blake3 digests of the miner key, the bump, the group seed
/// and the per-byte nonce.
#[verifier::external_body]
pub fn poa_unpack(pubkey: &[u8; 32], bump: u8, seeds: &[u8; 16], nonces: &[u8; 128]) -> (r: [u8;
    128])
    ensures
        r@ == spec_unpacked_segment(pubkey@, bump, seeds@, nonces@),
{
    packx::Solution::new(bump, *seeds, *nonces).unpack(pubkey)
}

} // verus!
