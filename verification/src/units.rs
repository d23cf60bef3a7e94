//! Whole thousandths, and keeping a number inside a range.

use vstd::prelude::*;

verus! {

/// How many thousandths make one: the scale of every fractional quantity.
pub const UNIT: u32 = 1_000;

/// `value`, moved to the nearer end of `low ..= high` where it lies outside.
pub open spec fn clamp(value: int, low: int, high: int) -> int {
    if value < low {
        low
    } else if value > high {
        high
    } else {
        value
    }
}

/// Brings `value` into `low ..= high`.
pub(crate) fn clamp_to(value: i64, low: i64, high: i64) -> (kept: i64)
    requires
        low <= high,
    ensures
        kept == clamp(value as int, low as int, high as int),
        low <= kept <= high,
{
    if value < low {
        low
    } else if value > high {
        high
    } else {
        value
    }
}

} // verus!
