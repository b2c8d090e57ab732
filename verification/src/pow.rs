//! Proof-of-work verification over the per-miner challenge.

use vstd::prelude::*;

verus! {

/// Whether a 16-byte digest is a valid EquiX solution of the puzzle seeded
/// with the given challenge and nonce.
pub uninterp spec fn crankx_solution_ok(challenge: Seq<u8>, nonce: Seq<u8>, digest: Seq<u8>) -> bool;

/// The difficulty of a proof-of-work solution: the leading zero bits of
/// its final hash, a function of digest and nonce alone.
pub uninterp spec fn crankx_difficulty_of(digest: Seq<u8>, nonce: Seq<u8>) -> u32;

/// Relies on `crankx::verify` with an empty data block: accepts exactly the
/// valid EquiX solutions of the puzzle seeded with `challenge || nonce`,
/// a deterministic function of those bytes.
#[verifier::external_body]
pub fn pow_verify(challenge: &[u8; 32], nonce: &[u8; 8], digest: &[u8; 16]) -> (ok: bool)
    ensures
        ok == crankx_solution_ok(challenge@, nonce@, digest@),
{
    crankx::verify(challenge, &[], nonce, digest).is_ok()
}

/// Relies on `crankx::Solution::difficulty`: counts the leading zero bits
/// of the solution's final hash, a deterministic function of digest and
/// nonce.
#[verifier::external_body]
pub fn pow_difficulty(digest: &[u8; 16], nonce: &[u8; 8]) -> (d: u32)
    ensures
        d == crankx_difficulty_of(digest@, nonce@),
{
    crankx::Solution::new(*digest, *nonce).difficulty()
}

} // verus!
