//! Clamping: bringing a number into a range.

use vstd::prelude::*;

verus! {

/// `value`, or the nearer bound where `value` lies outside `low..=high`.
pub open spec fn clamped(value: int, low: int, high: int) -> int {
    if value < low {
        low
    } else if value > high {
        high
    } else {
        value
    }
}

/// Returns `value`, or the nearer bound where `value` lies outside
/// `low..=high`.
pub fn clamp(value: i128, low: i64, high: i64) -> (within: i64)
    ensures
        within == clamped(value as int, low as int, high as int),
{
    if value < low as i128 {
        low
    } else if value > high as i128 {
        high
    } else {
        value as i64
    }
}

} // verus!
