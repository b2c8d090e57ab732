//! Protocol constants: tree geometry, sizing, token economics, timing and rent.

use vstd::prelude::*;

verus! {

/// Height of the Merkle tree committing a tape's segments (number of levels).
pub const SEGMENT_TREE_HEIGHT: usize = 18;
/// Number of sibling hashes in a Merkle proof for the segment tree.
pub const SEGMENT_PROOF_LEN: usize = 18;

/// Height of the Merkle tree committing a spool's tape addresses.
pub const TAPE_TREE_HEIGHT: usize = 10;
/// Number of sibling hashes in a Merkle proof for the tape tree.
pub const TAPE_PROOF_LEN: usize = 10;

/// Segment size in bytes.
pub const SEGMENT_SIZE: usize = 128;

/// Maximum number of segments in a tape (half the segment tree's capacity).
pub const MAX_SEGMENTS_PER_TAPE: u64 = 131072;
/// Maximum number of tapes in a spool (half the tape tree's capacity).
pub const MAX_TAPES_PER_SPOOL: u64 = 512;

/// Number of decimal places of the reward token.
pub const TOKEN_DECIMALS: u8 = 10;
/// Smallest on-chain token unit.
pub const ONE_TAPE: u64 = 10_000_000_000;
/// Maximum total token supply.
pub const MAX_SUPPLY: u64 = 7_000_000 * ONE_TAPE;

/// Minimum mining difficulty (leading zero bits of the proof-of-work hash).
pub const MIN_MINING_DIFFICULTY: u64 = 1;
/// Minimum packing difficulty.
pub const MIN_PACKING_DIFFICULTY: u64 = 0;
/// Minimum block participation required to solve a block.
pub const MIN_PARTICIPATION_TARGET: u64 = 1;
/// Maximum block participation required to solve a block.
pub const MAX_PARTICIPATION_TARGET: u64 = 100;
/// Minimum reward scaling factor for miners.
pub const MIN_CONSISTENCY_MULTIPLIER: u64 = 1;
/// Maximum reward scaling factor for miners.
pub const MAX_CONSISTENCY_MULTIPLIER: u64 = 32;

/// Duration of one block in seconds.
pub const BLOCK_DURATION_SECONDS: u64 = 60;
/// Number of blocks per epoch.
pub const EPOCH_BLOCKS: u64 = 10;
/// Difficulty adjustment interval, in epochs.
pub const ADJUSTMENT_INTERVAL: u64 = 50;

/// Rent charged per segment per block.
pub const RENT_PER_SEGMENT: u64 = 100;

/// Blocks in one year; a tape must pre-fund this much rent to finalize.
pub const BLOCKS_PER_YEAR: u64 = 60 * 60 * 24 * 365 / BLOCK_DURATION_SECONDS;

/// Maximum length of an entity name, in bytes (NUL-padded).
pub const NAME_LEN: usize = 32;
/// Size of a tape's opaque header, in bytes.
pub const HEADER_SIZE: usize = 64;

} // verus!
