//! The mine step: the block/epoch loop and dual proof verification.
//!
//! One accepted proof charges the recalled tape its rent, pays the miner a
//! multiplier-scaled share of the block reward, and advances the block
//! once enough proofs accumulate; every tenth block advances the epoch,
//! and every fiftieth epoch retargets difficulty and participation by one
//! doubling step toward the target block duration.

use vstd::prelude::*;
use vstd::bytes::{spec_u64_from_le_bytes, u64_from_le_bytes};
use vstd::slice::slice_subrange;
use crate::consts::{
    MAX_CONSISTENCY_MULTIPLIER, MIN_CONSISTENCY_MULTIPLIER, MIN_MINING_DIFFICULTY,
    MIN_PARTICIPATION_TARGET, MAX_PARTICIPATION_TARGET, EPOCH_BLOCKS, BLOCK_DURATION_SECONDS,
    ADJUSTMENT_INTERVAL,
};
use crate::error::TapeError;
use crate::hashing::{
    spec_chained_hash, spec_leaf_hash, compute_challenge, compute_next_challenge, compute_leaf,
};
use crate::merkle::{spec_path_root, hash_views};
use crate::poa::{spec_unpacked_segment, poa_unpack};
use crate::pow::{crankx_solution_ok, crankx_difficulty_of, pow_verify, pow_difficulty};
use crate::rent::spec_rent_owed;
use crate::state::{Epoch, Block, Archive, Tape, Miner, miner_wf, epoch_wf};
use crate::types::{PoW, PoA};
use crate::utils::{spec_is_zero32, is_zero32, bytes32_eq};

verus! {

/// The tape a challenge recalls: the first eight challenge bytes reduced
/// modulo the number of stored tapes, one-based; tape one when nothing is
/// stored yet.
pub open spec fn spec_recall_tape(challenge: Seq<u8>, total_tapes: u64) -> u64 {
    if total_tapes == 0 {
        1
    } else {
        (spec_u64_from_le_bytes(challenge.subrange(0, 8)) % total_tapes + 1) as u64
    }
}

/// Deterministic recall-tape selection from a challenge.
pub fn compute_recall_tape(challenge: &[u8; 32], total_tapes: u64) -> (r: u64)
    ensures
        r == spec_recall_tape(challenge@, total_tapes),
{
    if total_tapes == 0 {
        return 1;
    }
    let x = u64_from_le_bytes(slice_subrange(challenge.as_slice(), 0, 8));
    x % total_tapes + 1
}

/// The segment a challenge recalls: challenge bytes eight to sixteen
/// reduced modulo the tape's segment count; segment zero of an empty tape.
pub open spec fn spec_recall_segment(challenge: Seq<u8>, total_segments: u64) -> u64 {
    if total_segments == 0 {
        0
    } else {
        (spec_u64_from_le_bytes(challenge.subrange(8, 16)) % total_segments) as u64
    }
}

/// Deterministic recall-segment selection from a challenge.
pub fn compute_recall_segment(challenge: &[u8; 32], total_segments: u64) -> (r: u64)
    ensures
        r == spec_recall_segment(challenge@, total_segments),
{
    if total_segments == 0 {
        return 0;
    }
    let x = u64_from_le_bytes(slice_subrange(challenge.as_slice(), 8, 16));
    x % total_segments
}

/// The consistency multiplier after a proof: one step up, to its cap, when
/// the miner also proved the previous block; otherwise halved, to its
/// floor.
pub open spec fn spec_next_multiplier(multiplier: u64, consecutive: bool) -> u64 {
    if consecutive {
        if multiplier + 1 >= MAX_CONSISTENCY_MULTIPLIER {
            MAX_CONSISTENCY_MULTIPLIER
        } else {
            (multiplier + 1) as u64
        }
    } else {
        if multiplier / 2 <= MIN_CONSISTENCY_MULTIPLIER {
            MIN_CONSISTENCY_MULTIPLIER
        } else {
            multiplier / 2
        }
    }
}

/// The reward one proof earns: the block reward scaled by the multiplier
/// over its cap.
pub open spec fn spec_reward_delta(base_reward: u64, multiplier: u64) -> u64
    recommends
        multiplier <= MAX_CONSISTENCY_MULTIPLIER,
{
    ((base_reward * multiplier) / (MAX_CONSISTENCY_MULTIPLIER as int)) as u64
}

/// Addition capped at the largest representable value.
pub open spec fn spec_sat_add(a: u64, b: u64) -> u64 {
    if a + b > u64::MAX {
        u64::MAX
    } else {
        (a + b) as u64
    }
}

/// Seconds from `last` to `now`, capped when the difference does not fit.
pub open spec fn spec_elapsed(now: i64, last: i64) -> i64 {
    if i64::MIN <= now - last <= i64::MAX {
        (now - last) as i64
    } else {
        i64::MAX
    }
}

/// Mining difficulty after a retarget: one leading-zero bit more when the
/// adjustment window of blocks came in under the target duration, one
/// fewer (to its floor) when over, unchanged on the mark.
pub open spec fn spec_retarget_difficulty(difficulty: u64, elapsed: i64) -> u64 {
    let target = (EPOCH_BLOCKS * ADJUSTMENT_INTERVAL * BLOCK_DURATION_SECONDS) as i64;
    if elapsed < target {
        spec_sat_add(difficulty, 1)
    } else if elapsed > target {
        if difficulty <= MIN_MINING_DIFFICULTY {
            MIN_MINING_DIFFICULTY
        } else {
            (difficulty - 1) as u64
        }
    } else {
        difficulty
    }
}

/// Participation target after a retarget: one prover more (to its cap)
/// when blocks came in fast, one fewer (to its floor) when slow.
pub open spec fn spec_retarget_participation(participation: u64, elapsed: i64) -> u64 {
    let target = (EPOCH_BLOCKS * ADJUSTMENT_INTERVAL * BLOCK_DURATION_SECONDS) as i64;
    if elapsed < target {
        if participation + 1 >= MAX_PARTICIPATION_TARGET {
            MAX_PARTICIPATION_TARGET
        } else {
            (participation + 1) as u64
        }
    } else if elapsed > target {
        if participation <= MIN_PARTICIPATION_TARGET {
            MIN_PARTICIPATION_TARGET
        } else {
            (participation - 1) as u64
        }
    } else {
        participation
    }
}

/// The first check a mine attempt fails, or nothing when all pass.
///
/// In order: the passed tape must be the miner's committed tape, or the
/// canonically recalled tape when no commitment is set; the miner must not
/// have proved this block already and time must have advanced; the
/// proof-of-work must be valid for the per-miner challenge and meet the
/// mining difficulty; and the segment reconstructed from the packing
/// solution must sit at the recalled index of the tape's Merkle root.
pub open spec fn spec_mine_error(
    epoch: Epoch,
    block: Block,
    archive: Archive,
    tape: Tape,
    miner: Miner,
    tape_address: Seq<u8>,
    pow: PoW,
    poa: PoA,
    now: i64,
) -> Option<TapeError> {
    let c_challenge = spec_chained_hash(block.challenge@, miner.challenge@);
    let c_seg = spec_recall_segment(c_challenge, tape.total_segments);
    let segment = spec_unpacked_segment(miner.authority@, poa.bump@[0], poa.seed@, poa.nonce@);
    let expected_leaf = spec_leaf_hash(c_seg, segment);
    if !(if spec_is_zero32(miner.commitment@) {
        tape.number == spec_recall_tape(block.challenge@, archive.tapes_stored)
    } else {
        tape_address == miner.commitment@
    }) {
        Some(TapeError::UnexpectedTape)
    } else if miner.last_proof_block >= block.number || now <= miner.last_proof_at {
        Some(TapeError::SolutionTooEarly)
    } else if !crankx_solution_ok(c_challenge, pow.nonce@, pow.digest@) {
        Some(TapeError::SolutionInvalid)
    } else if (crankx_difficulty_of(pow.digest@, pow.nonce@) as u64) < epoch.mining_difficulty {
        Some(TapeError::SolutionTooEasy)
    } else if spec_path_root(expected_leaf, hash_views(poa.path.0@)) != tape.merkle_root@ {
        Some(TapeError::CommitmentMismatch)
    } else {
        None
    }
}

/// Verify a miner's dual proof and settle one mine step.
///
/// On success the miner's multiplier, rewards and rolling challenge are
/// updated, the tape pays its rent up to the current block, and the block
/// accumulates one proof; a block that reaches the participation target is
/// sealed, rotating the challenge, every tenth sealed block advances the
/// epoch, and every fiftieth epoch retargets difficulty and participation.
/// On any error nothing changes.
pub fn miner_mine(
    epoch: &mut Epoch,
    block: &mut Block,
    archive: &Archive,
    tape: &mut Tape,
    miner: &mut Miner,
    tape_address: &[u8; 32],
    pow: &PoW,
    poa: &PoA,
    now: i64,
    current_slot: u64,
) -> (r: Result<(), TapeError>)
    requires
        miner_wf(*old(miner)),
        epoch_wf(*old(epoch)),
    ensures
        miner_wf(*final(miner)),
        epoch_wf(*final(epoch)),
        match r {
            Err(e) => {
                &&& spec_mine_error(
                    *old(epoch),
                    *old(block),
                    *archive,
                    *old(tape),
                    *old(miner),
                    tape_address@,
                    *pow,
                    *poa,
                    now,
                ) == Some(e)
                &&& *final(epoch) == *old(epoch)
                &&& *final(block) == *old(block)
                &&& *final(tape) == *old(tape)
                &&& *final(miner) == *old(miner)
            },
            Ok(()) => {
                let c_challenge = spec_chained_hash(old(block).challenge@, old(miner).challenge@);
                let consecutive = old(miner).last_proof_block + 1 == old(block).number;
                let new_mult = spec_next_multiplier(old(miner).multiplier, consecutive);
                let delta = spec_reward_delta(archive.spec_block_reward(), new_mult);
                let owed = spec_rent_owed(
                    old(tape).total_segments,
                    old(tape).last_rent_block,
                    old(block).number,
                );
                let new_progress = spec_sat_add(old(block).progress, 1);
                let sealed = new_progress >= old(epoch).target_participation;
                let epoch_progress = spec_sat_add(old(epoch).progress, 1);
                let epoch_turns = epoch_progress >= EPOCH_BLOCKS;
                let new_epoch_number = spec_sat_add(old(epoch).number, 1);
                let retargets = new_epoch_number % ADJUSTMENT_INTERVAL == 0;
                let elapsed = spec_elapsed(now, old(epoch).last_epoch_at);
                &&& spec_mine_error(
                    *old(epoch),
                    *old(block),
                    *archive,
                    *old(tape),
                    *old(miner),
                    tape_address@,
                    *pow,
                    *poa,
                    now,
                ) is None
                &&& *final(miner) == (Miner {
                    unclaimed_rewards: spec_sat_add(old(miner).unclaimed_rewards, delta),
                    challenge: final(miner).challenge,
                    multiplier: new_mult,
                    last_proof_block: old(block).number,
                    last_proof_at: now,
                    total_proofs: spec_sat_add(old(miner).total_proofs, 1),
                    total_rewards: spec_sat_add(old(miner).total_rewards, delta),
                    ..*old(miner)
                })
                &&& final(miner).challenge@ == spec_chained_hash(
                    old(miner).challenge@,
                    c_challenge,
                )
                &&& *final(tape) == (Tape {
                    balance: if old(tape).balance >= owed {
                        (old(tape).balance - owed) as u64
                    } else {
                        0u64
                    },
                    last_rent_block: old(block).number,
                    ..*old(tape)
                })
                &&& if !sealed {
                    *final(block) == (Block {
                        progress: new_progress,
                        last_proof_at: now,
                        ..*old(block)
                    }) && *final(epoch) == *old(epoch)
                } else {
                    &&& *final(block) == (Block {
                        number: spec_sat_add(old(block).number, 1),
                        progress: 0,
                        challenge: final(block).challenge,
                        challenge_set: current_slot,
                        last_proof_at: now,
                        last_block_at: now,
                    })
                    &&& final(block).challenge@ == spec_chained_hash(
                        old(block).challenge@,
                        vstd::bytes::spec_u64_to_le_bytes(current_slot),
                    )
                    &&& if !epoch_turns {
                        *final(epoch) == (Epoch { progress: epoch_progress, ..*old(epoch) })
                    } else {
                        *final(epoch) == (Epoch {
                            number: new_epoch_number,
                            progress: 0,
                            mining_difficulty: if retargets {
                                spec_retarget_difficulty(old(epoch).mining_difficulty, elapsed)
                            } else {
                                old(epoch).mining_difficulty
                            },
                            target_participation: if retargets {
                                spec_retarget_participation(
                                    old(epoch).target_participation,
                                    elapsed,
                                )
                            } else {
                                old(epoch).target_participation
                            },
                            last_epoch_at: now,
                            ..*old(epoch)
                        })
                    }
                }
            },
        },
{
    // Step 1: the tape passed in must be the committed or recalled tape.
    let on_target = if is_zero32(&miner.commitment) {
        let recall = compute_recall_tape(&block.challenge, archive.tapes_stored);
        tape.number == recall
    } else {
        bytes32_eq(tape_address, &miner.commitment)
    };
    if !on_target {
        return Err(TapeError::UnexpectedTape);
    }

    // Step 2: one accepted proof per miner per block, and time must move.
    if miner.last_proof_block >= block.number || now <= miner.last_proof_at {
        return Err(TapeError::SolutionTooEarly);
    }

    // Step 3: proof of work against the per-miner challenge.
    let c_challenge = compute_challenge(&block.challenge, &miner.challenge);
    if !pow_verify(&c_challenge, &pow.nonce, &pow.digest) {
        return Err(TapeError::SolutionInvalid);
    }
    let difficulty = pow_difficulty(&pow.digest, &pow.nonce);
    if (difficulty as u64) < epoch.mining_difficulty {
        return Err(TapeError::SolutionTooEasy);
    }

    // Step 4: proof of access to the recalled segment.
    let c_seg = compute_recall_segment(&c_challenge, tape.total_segments);
    let segment = poa_unpack(&miner.authority, poa.bump[0], &poa.seed, &poa.nonce);
    let expected_leaf = compute_leaf(c_seg, &segment);
    if !crate::merkle::raw_merkle_verify(&tape.merkle_root, poa.path.0.as_slice(), &expected_leaf)
    {
        return Err(TapeError::CommitmentMismatch);
    }

    // Step 5: settle the reward and the rent.
    let consecutive = miner.last_proof_block + 1 == block.number;
    let new_mult = if consecutive {
        if miner.multiplier >= MAX_CONSISTENCY_MULTIPLIER {
            MAX_CONSISTENCY_MULTIPLIER
        } else {
            miner.multiplier + 1
        }
    } else {
        let halved = miner.multiplier / 2;
        if halved <= MIN_CONSISTENCY_MULTIPLIER {
            MIN_CONSISTENCY_MULTIPLIER
        } else {
            halved
        }
    };
    let base_reward = archive.block_reward();
    proof {
        assert((base_reward as u128) * (new_mult as u128) <= u128::MAX) by (nonlinear_arith)
            requires
                base_reward <= u64::MAX,
                new_mult <= 32,
        ;
    }
    let wide: u128 = (base_reward as u128) * (new_mult as u128) / 32;
    proof {
        assert(wide <= u64::MAX) by (nonlinear_arith)
            requires
                wide == (base_reward as u128) * (new_mult as u128) / 32,
                base_reward <= u64::MAX,
                new_mult <= 32,
        ;
    }
    let delta = wide as u64;
    miner.multiplier = new_mult;
    miner.unclaimed_rewards = miner.unclaimed_rewards.saturating_add(delta);
    miner.total_rewards = miner.total_rewards.saturating_add(delta);
    miner.total_proofs = miner.total_proofs.saturating_add(1);
    miner.last_proof_block = block.number;
    miner.last_proof_at = now;
    miner.challenge = compute_challenge(&miner.challenge, &c_challenge);

    let owed = tape.rent_owed(block.number);
    tape.balance = tape.balance.saturating_sub(owed);
    tape.last_rent_block = block.number;

    block.progress = block.progress.saturating_add(1);
    block.last_proof_at = now;

    // Seal the block once enough proofs accumulate.
    if block.progress >= epoch.target_participation {
        block.number = block.number.saturating_add(1);
        block.challenge = compute_next_challenge(&block.challenge, current_slot);
        block.challenge_set = current_slot;
        block.progress = 0;
        block.last_block_at = now;

        epoch.progress = epoch.progress.saturating_add(1);
        if epoch.progress >= EPOCH_BLOCKS {
            let elapsed = match now.checked_sub(epoch.last_epoch_at) {
                Some(d) => d,
                None => i64::MAX,
            };
            epoch.number = epoch.number.saturating_add(1);
            epoch.progress = 0;
            epoch.last_epoch_at = now;
            if epoch.number % ADJUSTMENT_INTERVAL == 0 {
                let target = (EPOCH_BLOCKS * ADJUSTMENT_INTERVAL * BLOCK_DURATION_SECONDS) as i64;
                if elapsed < target {
                    epoch.mining_difficulty = epoch.mining_difficulty.saturating_add(1);
                    if epoch.target_participation < MAX_PARTICIPATION_TARGET {
                        epoch.target_participation = epoch.target_participation + 1;
                    }
                } else if elapsed > target {
                    if epoch.mining_difficulty > MIN_MINING_DIFFICULTY {
                        epoch.mining_difficulty = epoch.mining_difficulty - 1;
                    }
                    if epoch.target_participation > MIN_PARTICIPATION_TARGET {
                        epoch.target_participation = epoch.target_participation - 1;
                    }
                }
            }
        }
    }
    Ok(())
}

} // verus!
