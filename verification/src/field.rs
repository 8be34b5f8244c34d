//! Playfield geometry and the fixed-point scale.
//!
//! Lengths are whole numbers of *units*. The scale is chosen so that the two
//! smallest quantities of the game are whole numbers of units: the distance
//! covered in one microsecond at one pixel per second, and one step of the
//! paddle-speed ramp (a forty-fifth of a pixel).
//!
//! The horizontal axis grows to the right and the vertical axis grows upward.

use vstd::prelude::*;

verus! {

/// Units in one pixel.
pub const UNITS_PER_PIXEL: i64 = 9_000_000;

/// Units covered in one microsecond at a speed of one pixel per second.
pub const UNITS_PER_SPEED_MICROSECOND: i64 = 9;

/// Horizontal position of the playfield's center.
pub const FIELD_CENTER_X: i64 = 0;

/// Vertical position of the playfield's center.
pub const FIELD_CENTER_Y: i64 = -25 * UNITS_PER_PIXEL;

/// Width of the playfield.
pub const FIELD_WIDTH: i64 = 700 * UNITS_PER_PIXEL;

/// Height of the playfield.
pub const FIELD_HEIGHT: i64 = 450 * UNITS_PER_PIXEL;

/// Half the width of the playfield.
pub const FIELD_HALF_WIDTH: i64 = 350 * UNITS_PER_PIXEL;

/// Half the height of the playfield.
pub const FIELD_HALF_HEIGHT: i64 = 225 * UNITS_PER_PIXEL;

/// Thickness of the frame drawn around the playfield.
pub const FRAME_THICKNESS: i64 = 5 * UNITS_PER_PIXEL;

/// Left edge of the playfield.
pub const FIELD_LEFT: i64 = FIELD_CENTER_X - FIELD_HALF_WIDTH;

/// Right edge of the playfield.
pub const FIELD_RIGHT: i64 = FIELD_CENTER_X + FIELD_HALF_WIDTH;

/// Lower edge of the playfield.
pub const FIELD_BOTTOM: i64 = FIELD_CENTER_Y - FIELD_HALF_HEIGHT;

/// Upper edge of the playfield.
pub const FIELD_TOP: i64 = FIELD_CENTER_Y + FIELD_HALF_HEIGHT;

/// Diameter of the ball.
pub const BALL_DIAMETER: i64 = 32 * UNITS_PER_PIXEL;

/// Radius of the ball.
pub const BALL_RADIUS: i64 = 16 * UNITS_PER_PIXEL;

/// Highest position of the ball's center at which the ball does not reach
/// into the upper wall.
pub const BALL_Y_MAX: i64 = FIELD_TOP - BALL_RADIUS;

/// Lowest position of the ball's center at which the ball does not reach
/// into the lower wall.
pub const BALL_Y_MIN: i64 = FIELD_BOTTOM + BALL_RADIUS;

/// Width of a paddle.
pub const PADDLE_WIDTH: i64 = 10 * UNITS_PER_PIXEL;

/// Half the width of a paddle: the depth of the band in which a paddle
/// intercepts the ball.
pub const PADDLE_HALF_WIDTH: i64 = 5 * UNITS_PER_PIXEL;

/// Height of a paddle.
pub const PADDLE_HEIGHT: i64 = 80 * UNITS_PER_PIXEL;

/// Half the height of a paddle.
pub const PADDLE_HALF_HEIGHT: i64 = 40 * UNITS_PER_PIXEL;

/// Distance of a paddle's center from the edge of the playfield behind it.
pub const PADDLE_INSET: i64 = 20 * UNITS_PER_PIXEL;

/// Horizontal position of the left paddle.
pub const LEFT_PADDLE_X: i64 = FIELD_LEFT + PADDLE_INSET;

/// Horizontal position of the right paddle.
pub const RIGHT_PADDLE_X: i64 = FIELD_RIGHT - PADDLE_INSET;

/// Lowest position of a paddle's center.
pub const PADDLE_Y_MIN: i64 = FIELD_BOTTOM + PADDLE_HALF_HEIGHT;

/// Highest position of a paddle's center.
pub const PADDLE_Y_MAX: i64 = FIELD_TOP - PADDLE_HALF_HEIGHT;

/// Largest horizontal distance from the origin at which the ball is served.
pub const SERVE_SPREAD_X: i64 = 10 * UNITS_PER_PIXEL;

/// Largest vertical distance from the origin at which the ball is served.
pub const SERVE_SPREAD_Y: i64 = 100 * UNITS_PER_PIXEL;

/// The length of `count` pixels.
pub open spec fn in_pixels(count: int) -> int {
    count * UNITS_PER_PIXEL
}

/// Returns the length of `count` pixels.
pub fn pixels(count: i32) -> (length: i64)
    ensures
        length == in_pixels(count as int),
{
    count as i64 * UNITS_PER_PIXEL
}

} // verus!
