//! Entity records: the global singletons and the per-entity accounts.
//!
//! All entities are fixed-layout, little-endian records addressed by
//! deterministic identifiers; here each is a plain struct, and the account
//! byte layout lives beside it in the layout module.

use vstd::prelude::*;
use crate::consts::{
    NAME_LEN, HEADER_SIZE, SEGMENT_TREE_HEIGHT, TAPE_TREE_HEIGHT, MAX_SEGMENTS_PER_TAPE,
    MAX_TAPES_PER_SPOOL, MAX_CONSISTENCY_MULTIPLIER, MIN_PARTICIPATION_TARGET,
    MAX_PARTICIPATION_TARGET, MIN_MINING_DIFFICULTY, MIN_PACKING_DIFFICULTY,
};
use crate::merkle::{MerkleTree, tree_wf};

verus! {

/// Merkle accumulator over a tape's segments.
pub type SegmentTree = MerkleTree<SEGMENT_TREE_HEIGHT>;

/// Merkle accumulator over a spool's packed tape addresses.
pub type TapeTree = MerkleTree<TAPE_TREE_HEIGHT>;

/// Kind tag stored in the first byte of every persisted account.
#[derive(Clone, Copy, Debug, PartialEq, Eq, Structural)]
pub enum AccountType {
    Unknown,
    Archive,
    Spool,
    Writer,
    Tape,
    Miner,
    Epoch,
    Block,
    Treasury,
}

impl AccountType {
    /// The numeric kind tag of this account type.
    pub open spec fn spec_code(self) -> u8 {
        match self {
            AccountType::Unknown => 0,
            AccountType::Archive => 1,
            AccountType::Spool => 2,
            AccountType::Writer => 3,
            AccountType::Tape => 4,
            AccountType::Miner => 5,
            AccountType::Epoch => 6,
            AccountType::Block => 7,
            AccountType::Treasury => 8,
        }
    }

    /// The numeric kind tag of this account type.
    #[verifier::when_used_as_spec(spec_code)]
    pub fn code(self) -> (c: u8)
        ensures
            c == self.spec_code(),
    {
        match self {
            AccountType::Unknown => 0,
            AccountType::Archive => 1,
            AccountType::Spool => 2,
            AccountType::Writer => 3,
            AccountType::Tape => 4,
            AccountType::Miner => 5,
            AccountType::Epoch => 6,
            AccountType::Block => 7,
            AccountType::Treasury => 8,
        }
    }
}

/// Account kind tag of a persisted record type.
pub trait Discriminator {
    /// The kind tag stored in the record's first byte.
    fn discriminator() -> u8;
}

/// Lifecycle state of a tape.
#[derive(Clone, Copy, Debug, PartialEq, Eq, Structural)]
pub enum TapeState {
    Unknown,
    Created,
    Writing,
    Finalized,
}

impl TapeState {
    /// The numeric state stored in the tape record.
    pub open spec fn spec_code(self) -> u64 {
        match self {
            TapeState::Unknown => 0,
            TapeState::Created => 1,
            TapeState::Writing => 2,
            TapeState::Finalized => 3,
        }
    }

    /// The numeric state stored in the tape record.
    #[verifier::when_used_as_spec(spec_code)]
    pub fn code(self) -> (c: u64)
        ensures
            c == self.spec_code(),
    {
        match self {
            TapeState::Unknown => 0,
            TapeState::Created => 1,
            TapeState::Writing => 2,
            TapeState::Finalized => 3,
        }
    }
}

/// Global storage counters (singleton).
#[derive(Clone, Copy, Debug, PartialEq, Eq, Structural)]
pub struct Archive {
    /// Number of finalized tapes.
    pub tapes_stored: u64,
    /// Total segments across all finalized tapes.
    pub segments_stored: u64,
}

/// Difficulty and reward regime (singleton).
#[derive(Clone, Copy, Debug, PartialEq, Eq, Structural)]
pub struct Epoch {
    /// Epoch counter.
    pub number: u64,
    /// Blocks sealed within the current epoch.
    pub progress: u64,
    /// Required leading-zero bits of a proof-of-work hash.
    pub mining_difficulty: u64,
    /// Required difficulty of packed-segment solutions.
    pub packing_difficulty: u64,
    /// Proofs required to seal a block.
    pub target_participation: u64,
    /// Last computed per-proof reward rate.
    pub reward_rate: u64,
    /// Duplicate-proof counter.
    pub duplicates: u64,
    /// Timestamp of the last epoch advance.
    pub last_epoch_at: i64,
}

/// Per-block proof progress (singleton).
#[derive(Clone, Copy, Debug, PartialEq)]
pub struct Block {
    /// Block counter.
    pub number: u64,
    /// Proofs accumulated toward the participation target.
    pub progress: u64,
    /// Current block challenge.
    pub challenge: [u8; 32],
    /// Slot at which the challenge was last rotated.
    pub challenge_set: u64,
    /// Timestamp of the last accepted proof.
    pub last_proof_at: i64,
    /// Timestamp of the last block advance.
    pub last_block_at: i64,
}

/// An append-only segment log with a Merkle commitment.
#[derive(Clone, Copy, Debug, PartialEq)]
pub struct Tape {
    /// One-based tape id, assigned at finalization time by the archive.
    pub number: u64,
    /// Lifecycle state, one of the `TapeState` codes.
    pub state: u64,
    /// Creator authority.
    pub authority: [u8; 32],
    /// NUL-padded name; a creator can hold one tape per name.
    pub name: [u8; 32],
    /// Seed of the segment tree's empty hashes, derived at creation.
    pub merkle_seed: [u8; 32],
    /// Root of the segment tree.
    pub merkle_root: [u8; 32],
    /// Opaque user header.
    pub header: [u8; 64],
    /// Slot at which the tape was created.
    pub first_slot: u64,
    /// Slot of the last write or update.
    pub tail_slot: u64,
    /// Token balance pre-funding rent.
    pub balance: u64,
    /// Block up to which rent has been charged.
    pub last_rent_block: u64,
    /// Number of stored segments.
    pub total_segments: u64,
}

/// The mutable Merkle scratchpad paired with a non-finalized tape.
#[derive(Clone, Copy, Debug, PartialEq)]
pub struct Writer {
    /// Address of the paired tape.
    pub tape: [u8; 32],
    /// Incremental segment tree.
    pub state: SegmentTree,
}

/// A registered mining operator.
#[derive(Clone, Copy, Debug, PartialEq)]
pub struct Miner {
    /// Operator authority.
    pub authority: [u8; 32],
    /// NUL-padded name; an authority can hold one miner per name.
    pub name: [u8; 32],
    /// Rewards earned and not yet claimed.
    pub unclaimed_rewards: u64,
    /// Rolling miner-local challenge.
    pub challenge: [u8; 32],
    /// Tape address committed through a spool, or all zero.
    pub commitment: [u8; 32],
    /// Consistency multiplier scaling the reward.
    pub multiplier: u64,
    /// Block of the last accepted proof.
    pub last_proof_block: u64,
    /// Timestamp of the last accepted proof.
    pub last_proof_at: i64,
    /// Number of accepted proofs.
    pub total_proofs: u64,
    /// Lifetime rewards earned.
    pub total_rewards: u64,
}

/// A second-level Merkle tree over tape addresses, owned by a miner.
#[derive(Clone, Copy, Debug, PartialEq)]
pub struct Spool {
    /// Owner-chosen spool number.
    pub number: u64,
    /// Owning miner's authority.
    pub authority: [u8; 32],
    /// Incremental tree over packed tape addresses.
    pub state: TapeTree,
    /// Seed of the tape tree's empty hashes, derived at creation.
    pub seed: [u8; 32],
    /// Xor accumulator of packed tape addresses, an advisory filter only.
    pub contains: [u8; 32],
    /// Number of packed tapes.
    pub total_tapes: u64,
    /// Block of the last proof served from this spool.
    pub last_proof_block: u64,
    /// Timestamp of the last proof served from this spool.
    pub last_proof_at: i64,
}

/// Holder of the reward mint authority (singleton); opaque.
#[derive(Clone, Copy, Debug, PartialEq, Eq, Structural)]
pub struct Treasury {}

impl Discriminator for Archive {
    fn discriminator() -> u8 {
        AccountType::Archive.code()
    }
}

impl Discriminator for Epoch {
    fn discriminator() -> u8 {
        AccountType::Epoch.code()
    }
}

impl Discriminator for Block {
    fn discriminator() -> u8 {
        AccountType::Block.code()
    }
}

impl Discriminator for Tape {
    fn discriminator() -> u8 {
        AccountType::Tape.code()
    }
}

impl Discriminator for Writer {
    fn discriminator() -> u8 {
        AccountType::Writer.code()
    }
}

impl Discriminator for Miner {
    fn discriminator() -> u8 {
        AccountType::Miner.code()
    }
}

impl Discriminator for Spool {
    fn discriminator() -> u8 {
        AccountType::Spool.code()
    }
}

impl Discriminator for Treasury {
    fn discriminator() -> u8 {
        AccountType::Treasury.code()
    }
}

/// A tape's state code is one of the known lifecycle states, and its
/// segment count is within the segment tree's half capacity.
pub open spec fn tape_wf(t: Tape) -> bool {
    &&& t.state <= 3
    &&& t.total_segments <= MAX_SEGMENTS_PER_TAPE
}

/// A writer's tree is well formed and holds exactly its tape's segments.
pub open spec fn writer_paired_wf(w: Writer, t: Tape) -> bool {
    &&& tree_wf(w.state@, SEGMENT_TREE_HEIGHT as nat)
    &&& w.state@.next_index == t.total_segments
}

/// A miner's multiplier never exceeds its cap, and rewards still waiting to
/// be claimed never exceed the rewards earned over its lifetime.
pub open spec fn miner_wf(m: Miner) -> bool {
    &&& m.multiplier <= MAX_CONSISTENCY_MULTIPLIER
    &&& m.unclaimed_rewards <= m.total_rewards
}

/// A spool's tree is well formed, currently packed leaves never outnumber
/// the appends made over its life, and the packed count stays within the
/// tape tree's half capacity.
pub open spec fn spool_wf(s: Spool) -> bool {
    &&& tree_wf(s.state@, TAPE_TREE_HEIGHT as nat)
    &&& s.total_tapes <= s.state@.next_index
    &&& s.total_tapes <= MAX_TAPES_PER_SPOOL
}

/// The epoch's parameters sit within their documented floors and caps.
pub open spec fn epoch_wf(e: Epoch) -> bool {
    &&& e.mining_difficulty >= MIN_MINING_DIFFICULTY
    &&& e.packing_difficulty >= MIN_PACKING_DIFFICULTY
    &&& MIN_PARTICIPATION_TARGET <= e.target_participation <= MAX_PARTICIPATION_TARGET
}

} // verus!
