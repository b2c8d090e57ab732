//! Proof payload types carried by the mine instruction.

use vstd::prelude::*;
use crate::consts::SEGMENT_PROOF_LEN;

verus! {

/// Proof-of-work solution needed to mine a block.
#[derive(Clone, Copy, Debug, PartialEq)]
pub struct PoW {
    /// Raw EquiX digest.
    pub digest: [u8; 16],
    /// Nonce the puzzle was solved with.
    pub nonce: [u8; 8],
}

/// Proof-of-access solution for a tape segment, cryptographically tied to
/// the miner's identity by the packing scheme.
#[derive(Clone, Copy, Debug, PartialEq)]
pub struct PoA {
    /// Packing bump; only the first byte is significant.
    pub bump: [u8; 8],
    /// One packing seed per 8-byte group of the segment.
    pub seed: [u8; 16],
    /// One packing nonce per segment byte.
    pub nonce: [u8; 128],
    /// Sibling path tying the segment to the tape's Merkle root.
    pub path: ProofPath,
}

/// A segment-tree sibling path; a distinct type so it cannot be swapped
/// with other hash arrays of the same length.
#[derive(Clone, Copy, Debug, PartialEq)]
pub struct ProofPath(pub [[u8; 32]; SEGMENT_PROOF_LEN]);

impl ProofPath {
    /// Construct from an array.
    pub fn from_array(path: [[u8; 32]; 18]) -> (r: ProofPath)
        ensures
            r.0 == path,
    {
        ProofPath(path)
    }

    /// Lossless extract of the inner array by value.
    pub fn into_array(self) -> (r: [[u8; 32]; 18])
        ensures
            r == self.0,
    {
        self.0
    }

    /// Borrow the inner array.
    pub fn as_array(&self) -> (r: &[[u8; 32]; 18])
        ensures
            r == self.0,
    {
        &self.0
    }

    /// Mutable borrow of the inner array.
    pub fn as_mut_array(&mut self) -> (r: &mut [[u8; 32]; 18])
        ensures
            final(self).0 == *final(r),
    {
        &mut self.0
    }

    /// Try to build from a slice; `None` when the length is not the
    /// segment-proof length.
    pub fn from_slice(slice: &[[u8; 32]]) -> (r: Option<ProofPath>)
        ensures
            match r {
                Some(p) => slice@.len() == SEGMENT_PROOF_LEN && p.0@ == slice@,
                None => slice@.len() != SEGMENT_PROOF_LEN,
            },
    {
        if slice.len() != 18 {
            return None;
        }
        let mut out: [[u8; 32]; 18] = [[0u8; 32]; 18];
        let mut i: usize = 0;
        while i < 18
            invariant
                0 <= i <= 18,
                slice@.len() == 18,
                forall|j: int| 0 <= j < i ==> out@[j] == slice@[j],
            decreases 18 - i,
        {
            out[i] = slice[i];
            i = i + 1;
        }
        proof {
            assert(out@ =~= slice@);
        }
        Some(ProofPath(out))
    }
}

impl Default for ProofPath {
    /// An all-zero path.
    fn default() -> (r: ProofPath)
        ensures
            forall|i: int, j: int| 0 <= i < 18 && 0 <= j < 32 ==> r.0@[i]@[j] == 0u8,
    {
        ProofPath([[0u8; 32]; 18])
    }
}

} // verus!
