//! Program initialization: the initial values of the global singletons.

use vstd::prelude::*;
use vstd::bytes::spec_u64_to_le_bytes;
use crate::consts::{
    MIN_MINING_DIFFICULTY, MIN_PACKING_DIFFICULTY, MIN_PARTICIPATION_TARGET,
};
use crate::hashing::{spec_chained_hash, compute_next_challenge};
use crate::state::{Archive, Epoch, Block, epoch_wf};

verus! {

/// The initial singletons: empty archive, the first epoch at the
/// difficulty floors, and block one with a challenge drawn from the
/// all-zero seed and the current slot.
pub fn program_initialize(now: i64, current_slot: u64) -> (r: (Archive, Epoch, Block))
    ensures
        r.0 == (Archive { tapes_stored: 0, segments_stored: 0 }),
        epoch_wf(r.1),
        r.1 == (Epoch {
            number: 1,
            progress: 0,
            mining_difficulty: MIN_MINING_DIFFICULTY,
            packing_difficulty: MIN_PACKING_DIFFICULTY,
            target_participation: MIN_PARTICIPATION_TARGET,
            reward_rate: 0,
            duplicates: 0,
            last_epoch_at: now,
        }),
        r.2 == (Block {
            number: 1,
            progress: 0,
            challenge: r.2.challenge,
            challenge_set: current_slot,
            last_proof_at: now,
            last_block_at: now,
        }),
        r.2.challenge@ == spec_chained_hash(
            Seq::new(32, |i: int| 0u8),
            spec_u64_to_le_bytes(current_slot),
        ),
{
    let archive = Archive { tapes_stored: 0, segments_stored: 0 };
    let epoch = Epoch {
        number: 1,
        progress: 0,
        mining_difficulty: MIN_MINING_DIFFICULTY,
        packing_difficulty: MIN_PACKING_DIFFICULTY,
        target_participation: MIN_PARTICIPATION_TARGET,
        reward_rate: 0,
        duplicates: 0,
        last_epoch_at: now,
    };
    let genesis: [u8; 32] = [0u8; 32];
    proof {
        assert(genesis@ =~= Seq::new(32, |i: int| 0u8));
    }
    let challenge = compute_next_challenge(&genesis, current_slot);
    let block = Block {
        number: 1,
        progress: 0,
        challenge,
        challenge_set: current_slot,
        last_proof_at: now,
        last_block_at: now,
    };
    (archive, epoch, block)
}

} // verus!
