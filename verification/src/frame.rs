//! The length of a frame.
//!
//! A step takes the length of its frame in whole microseconds. Whatever a
//! clock reports is brought into that form first: a time that runs backward
//! counts as no time at all, and one too long to hold counts as the longest
//! frame.

use crate::clamp::{clamp, clamped};
use vstd::prelude::*;

verus! {

/// The longest frame, in microseconds.
pub const MAX_FRAME_MICROS: u32 = u32::MAX;

/// The length of the frame that goes with an elapsed time.
pub open spec fn frame_micros(elapsed_micros: int) -> int {
    clamped(elapsed_micros, 0, MAX_FRAME_MICROS as int)
}

/// Returns the length of the frame that goes with an elapsed time, both in
/// microseconds.
pub fn frame_length(elapsed_micros: i128) -> (dt: u32)
    ensures
        dt == frame_micros(elapsed_micros as int),
{
    clamp(elapsed_micros, 0, MAX_FRAME_MICROS as i64) as u32
}

} // verus!
