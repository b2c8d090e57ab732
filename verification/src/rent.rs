//! Rent model: a pure function of segment count and elapsed blocks.
//!
//! Each stored segment owes a fixed rent per block; a tape must pre-fund one
//! year of rent to finalize, and the global block reward equals the aggregate
//! per-block rent of all stored segments.

use vstd::prelude::*;
use crate::consts::{RENT_PER_SEGMENT, BLOCKS_PER_YEAR};
use crate::state::{Tape, Archive};

verus! {

/// Rent a tape with `total_segments` segments pays each block, saturating
/// at the largest representable amount.
pub open spec fn spec_rent_per_block(total_segments: u64) -> u64 {
    if total_segments * RENT_PER_SEGMENT > u64::MAX {
        u64::MAX
    } else {
        (total_segments * RENT_PER_SEGMENT) as u64
    }
}

/// Rent this tape pays each block.
#[verifier::when_used_as_spec(spec_rent_per_block)]
pub fn rent_per_block(total_segments: u64) -> (r: u64)
    ensures
        r == spec_rent_per_block(total_segments),
{
    total_segments.saturating_mul(RENT_PER_SEGMENT)
}

/// Minimum balance required for a tape to finalize: one year of rent,
/// saturating at the largest representable amount.
pub open spec fn spec_min_finalization_rent(total_segments: u64) -> u64 {
    if spec_rent_per_block(total_segments) * BLOCKS_PER_YEAR > u64::MAX {
        u64::MAX
    } else {
        (spec_rent_per_block(total_segments) * BLOCKS_PER_YEAR) as u64
    }
}

/// Get the minimum rent required for a tape to finalize.
#[verifier::when_used_as_spec(spec_min_finalization_rent)]
pub fn min_finalization_rent(total_segments: u64) -> (r: u64)
    ensures
        r == spec_min_finalization_rent(total_segments),
{
    rent_per_block(total_segments).saturating_mul(BLOCKS_PER_YEAR)
}

/// Rent owed from `last_block` (exclusive) up to `current_block` (inclusive):
/// the per-block rent times the elapsed blocks, the product taken in 128-bit
/// arithmetic and truncated to 64 bits.
pub open spec fn spec_rent_owed(total_segments: u64, last_block: u64, current_block: u64) -> u64 {
    (spec_rent_per_block(total_segments) * (
        if current_block >= last_block {
            current_block - last_block
        } else {
            0
        }
    )) as u64
}

/// Rent owed from `last_block` (exclusive) up to `current_block` (inclusive).
#[verifier::when_used_as_spec(spec_rent_owed)]
pub fn rent_owed(total_segments: u64, last_block: u64, current_block: u64) -> (r: u64)
    ensures
        r == spec_rent_owed(total_segments, last_block, current_block),
{
    let rpb = rent_per_block(total_segments);
    let blocks = current_block.saturating_sub(last_block);
    proof {
        assert((rpb as u128) * (blocks as u128) <= u128::MAX) by (nonlinear_arith)
            requires
                rpb <= u64::MAX,
                blocks <= u64::MAX,
        ;
    }
    let wide: u128 = (rpb as u128) * (blocks as u128);
    #[verifier::truncate] (wide as u64)
}

impl Tape {
    /// Whether this tape's balance covers at least one block of rent.
    pub open spec fn spec_has_minimum_rent(&self) -> bool {
        self.balance >= spec_rent_per_block(self.total_segments)
    }

    /// Check if this tape is subsidized.
    #[verifier::when_used_as_spec(spec_has_minimum_rent)]
    pub fn has_minimum_rent(&self) -> (r: bool)
        ensures
            r == self.spec_has_minimum_rent(),
    {
        self.balance >= self.rent_per_block()
    }

    /// Whether this tape's balance covers a year of rent.
    pub open spec fn spec_can_finalize(&self) -> bool {
        self.balance >= spec_min_finalization_rent(self.total_segments)
    }

    /// Check if this tape has enough balance to cover finalization.
    #[verifier::when_used_as_spec(spec_can_finalize)]
    pub fn can_finalize(&self) -> (r: bool)
        ensures
            r == self.spec_can_finalize(),
    {
        self.balance >= min_finalization_rent(self.total_segments)
    }

    /// Rent this tape owes per block.
    pub fn rent_per_block(&self) -> (r: u64)
        ensures
            r == spec_rent_per_block(self.total_segments),
    {
        rent_per_block(self.total_segments)
    }

    /// Rent owed since the last block this tape paid for.
    pub fn rent_owed(&self, current_block: u64) -> (r: u64)
        ensures
            r == spec_rent_owed(self.total_segments, self.last_rent_block, current_block),
    {
        rent_owed(self.total_segments, self.last_rent_block, current_block)
    }
}

impl Archive {
    /// The global per-block reward to miners: the aggregate per-block rent
    /// of all stored segments.
    pub open spec fn spec_block_reward(&self) -> u64 {
        spec_rent_per_block(self.segments_stored)
    }

    /// Global reward to miners for the current block.
    #[verifier::when_used_as_spec(spec_block_reward)]
    pub fn block_reward(&self) -> (r: u64)
        ensures
            r == self.spec_block_reward(),
    {
        rent_per_block(self.segments_stored)
    }
}

/// No blocks elapsed means no rent owed.
pub proof fn lemma_rent_owed_zero_interval(total_segments: u64, block: u64)
    ensures
        spec_rent_owed(total_segments, block, block) == 0,
{
}

/// Rent is additive across consecutive intervals, provided the total over the
/// combined interval does not overflow the 64-bit amount.
pub proof fn lemma_rent_owed_additive(total_segments: u64, a: u64, b: u64, c: u64)
    requires
        a <= b <= c,
        spec_rent_per_block(total_segments) * (c - a) <= u64::MAX,
    ensures
        spec_rent_owed(total_segments, a, c) == spec_rent_owed(total_segments, a, b)
            + spec_rent_owed(total_segments, b, c),
{
    let r = spec_rent_per_block(total_segments);
    assert(r * (b - a) + r * (c - b) == r * (c - a)) by (nonlinear_arith);
    assert(r * (b - a) <= r * (c - a) && r * (c - b) <= r * (c - a)) by (nonlinear_arith)
        requires
            a <= b <= c,
            r >= 0,
    ;
}

} // verus!
