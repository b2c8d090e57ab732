use tape::consts::{RENT_PER_SEGMENT, BLOCKS_PER_YEAR};
use tape::rent::{rent_per_block, rent_owed, min_finalization_rent};

#[test]
fn rent_per_block_zero_segments() {
    assert_eq!(rent_per_block(0), 0);
}

#[test]
fn rent_per_block_one_segment() {
    assert_eq!(rent_per_block(1), RENT_PER_SEGMENT);
}

#[test]
fn rent_per_block_max_segments_saturates() {
    assert_eq!(rent_per_block(u64::MAX), u64::MAX);
}

#[test]
fn rent_owed_zero_blocks() {
    assert_eq!(rent_owed(10, 5, 5), 0);
}

#[test]
fn rent_owed_basic() {
    let segments = 10;
    let last = 100_u64;
    let current = 110_u64;
    assert_eq!(
        rent_owed(segments, last, current),
        segments * RENT_PER_SEGMENT * (current - last)
    );
}

#[test]
fn rent_owed_backwards_interval_is_zero() {
    assert_eq!(rent_owed(10, 110, 100), 0);
}

#[test]
fn min_finalization_rent_exact_value() {
    assert_eq!(BLOCKS_PER_YEAR, 525_600);
    assert_eq!(min_finalization_rent(2), 2 * RENT_PER_SEGMENT * 525_600);
    assert_eq!(min_finalization_rent(0), 0);
    assert_eq!(min_finalization_rent(u64::MAX), u64::MAX);
}

#[test]
fn rent_additive_over_consecutive_intervals() {
    let s = 7u64;
    assert_eq!(
        rent_owed(s, 10, 20) + rent_owed(s, 20, 35),
        rent_owed(s, 10, 35)
    );
}
