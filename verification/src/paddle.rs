//! The paddles: they move up or down by their speed and stay on the
//! playfield.

use crate::clamp::{clamp, clamped};
use crate::field::{PADDLE_Y_MAX, PADDLE_Y_MIN};
use vstd::prelude::*;

verus! {

/// Where a paddle wants to go: up by its speed if `up` is held, else down by
/// its speed if `down` is held, else nowhere. Up wins over down.
pub open spec fn paddle_target(y: int, speed: int, up: bool, down: bool) -> int {
    if up {
        y + speed
    } else if down {
        y - speed
    } else {
        y
    }
}

/// Where a paddle is after one frame: as near to where it wants to go as
/// the playfield allows.
pub open spec fn paddle_moved(y: int, speed: int, up: bool, down: bool) -> int {
    clamped(paddle_target(y, speed, up, down), PADDLE_Y_MIN as int, PADDLE_Y_MAX as int)
}

/// Whether a paddle at `y` is on the playfield.
pub open spec fn paddle_in_range(y: int) -> bool {
    PADDLE_Y_MIN <= y <= PADDLE_Y_MAX
}

/// Returns the position of a paddle after one frame.
pub fn move_paddle(y: i64, speed: i64, up: bool, down: bool) -> (moved: i64)
    ensures
        moved == paddle_moved(y as int, speed as int, up, down),
{
    let target: i128 = if up {
        y as i128 + speed as i128
    } else if down {
        y as i128 - speed as i128
    } else {
        y as i128
    };
    clamp(target, PADDLE_Y_MIN, PADDLE_Y_MAX)
}

} // verus!
