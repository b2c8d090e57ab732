//! Miner account operations: register, claim and unregister.

use vstd::prelude::*;
use vstd::bytes::spec_u64_to_le_bytes;
use crate::error::TapeError;
use crate::hashing::{spec_chained_hash, compute_next_challenge};
use crate::state::{Miner, miner_wf};

verus! {

/// Create a miner record addressed by `(authority, name)`.
///
/// The starting challenge is drawn from the miner's address and the
/// current slot; every accumulator starts at zero.
pub fn miner_register(
    authority: &[u8; 32],
    name: &[u8; 32],
    miner_address: &[u8; 32],
    current_slot: u64,
) -> (m: Miner)
    ensures
        miner_wf(m),
        m == (Miner {
            authority: *authority,
            name: *name,
            unclaimed_rewards: 0,
            challenge: m.challenge,
            commitment: m.commitment,
            multiplier: 0,
            last_proof_block: 0,
            last_proof_at: 0,
            total_proofs: 0,
            total_rewards: 0,
        }),
        m.challenge@ == spec_chained_hash(miner_address@, spec_u64_to_le_bytes(current_slot)),
        m.commitment@ =~= Seq::new(32, |i: int| 0u8),
{
    let challenge = compute_next_challenge(miner_address, current_slot);
    Miner {
        authority: *authority,
        name: *name,
        unclaimed_rewards: 0,
        challenge,
        commitment: [0u8; 32],
        multiplier: 0,
        last_proof_block: 0,
        last_proof_at: 0,
        total_proofs: 0,
        total_rewards: 0,
    }
}

/// Withdraw `amount` from a miner's unclaimed rewards.
///
/// Fails with `ClaimTooLarge` when the amount exceeds what is unclaimed;
/// otherwise exactly `amount` is deducted and owed to the beneficiary.
pub fn miner_claim(miner: &mut Miner, amount: u64) -> (r: Result<(), TapeError>)
    requires
        miner_wf(*old(miner)),
    ensures
        miner_wf(*final(miner)),
        match r {
            Ok(()) => {
                &&& amount <= old(miner).unclaimed_rewards
                &&& *final(miner) == (Miner {
                    unclaimed_rewards: (old(miner).unclaimed_rewards - amount) as u64,
                    ..*old(miner)
                })
            },
            Err(e) => {
                &&& e == TapeError::ClaimTooLarge
                &&& amount > old(miner).unclaimed_rewards
                &&& *final(miner) == *old(miner)
            },
        },
{
    if amount > miner.unclaimed_rewards {
        return Err(TapeError::ClaimTooLarge);
    }
    miner.unclaimed_rewards = miner.unclaimed_rewards - amount;
    Ok(())
}

/// Whether a miner account may be closed: nothing unclaimed remains.
pub fn miner_can_unregister(miner: &Miner) -> (r: bool)
    ensures
        r == (miner.unclaimed_rewards == 0),
{
    miner.unclaimed_rewards == 0
}

} // verus!
