//! Specifications for standard-library functions that vstd does not cover.

use vstd::prelude::*;

verus! {

/// Relies on `u64::saturating_mul`: the product, saturating at `u64::MAX`
/// instead of overflowing.
pub assume_specification[ u64::saturating_mul ](x: u64, y: u64) -> (r: u64)
    ensures
        r == if x * y > u64::MAX { u64::MAX } else { (x * y) as u64 },
;

} // verus!
