//! The ball: its travel within one frame, and what it meets on the way.

use crate::field::{
    BALL_RADIUS, BALL_Y_MAX, BALL_Y_MIN, FIELD_LEFT, FIELD_RIGHT, LEFT_PADDLE_X,
    PADDLE_HALF_HEIGHT, PADDLE_HALF_WIDTH, RIGHT_PADDLE_X, UNITS_PER_SPEED_MICROSECOND,
};
use crate::frame::MAX_FRAME_MICROS;
use crate::sign::{Side, Sign};
use crate::speed::BALL_SPEED_MAX;
use vstd::prelude::*;

verus! {

/// The farthest that the ball travels along one axis within one frame: at top
/// speed, over the longest time that a frame can take.
pub const MAX_TRAVEL: i64 = 34_789_235_089_500;

/// The distance that the ball covers along one axis in `dt` microseconds at
/// `speed` pixels per second.
pub open spec fn travel(speed: int, dt: int) -> int {
    speed * dt * UNITS_PER_SPEED_MICROSECOND
}

/// Where the ball is after `dt` microseconds, along one axis.
pub open spec fn advanced(position: int, heading: Sign, speed: int, dt: int) -> int {
    match heading {
        Sign::Positive => position + travel(speed, dt),
        Sign::Negative => position - travel(speed, dt),
    }
}

/// Whether the ball can be at `(x, y)` between two frames, heading
/// vertically as `heading_y` says: its center is on the playfield
/// horizontally; vertically it is at most one frame's travel beyond the
/// walls, and where it reaches into a wall it is heading back.
pub open spec fn ball_in_place(x: int, y: int, heading_y: Sign) -> bool {
    &&& FIELD_LEFT <= x <= FIELD_RIGHT
    &&& BALL_Y_MIN - MAX_TRAVEL <= y <= BALL_Y_MAX + MAX_TRAVEL
    &&& y >= BALL_Y_MAX ==> heading_y == Sign::Negative
    &&& y <= BALL_Y_MIN ==> heading_y == Sign::Positive
}

/// The vertical heading of the ball once the walls have had their say: a
/// ball that reaches into the upper wall heads down, one that reaches into
/// the lower wall heads up, and any other keeps its heading.
pub open spec fn wall_bounced(y: int, heading: Sign) -> Sign {
    if y >= BALL_Y_MAX {
        Sign::Negative
    } else if y <= BALL_Y_MIN {
        Sign::Positive
    } else {
        heading
    }
}

/// Whether the ball's right edge has reached the band in front of the right
/// paddle while its left edge has not yet passed the paddle's center line.
pub open spec fn in_right_band(x: int) -> bool {
    x + BALL_RADIUS >= RIGHT_PADDLE_X - PADDLE_HALF_WIDTH && x - BALL_RADIUS <= RIGHT_PADDLE_X
}

/// Whether the ball's left edge has reached the band in front of the left
/// paddle while its right edge has not yet passed the paddle's center line.
pub open spec fn in_left_band(x: int) -> bool {
    x - BALL_RADIUS <= LEFT_PADDLE_X + PADDLE_HALF_WIDTH && x + BALL_RADIUS >= LEFT_PADDLE_X
}

/// Whether the vertical extent of the ball meets that of a paddle.
pub open spec fn overlaps_paddle(ball_y: int, paddle_y: int) -> bool {
    ball_y - BALL_RADIUS <= paddle_y + PADDLE_HALF_HEIGHT && ball_y + BALL_RADIUS
        >= paddle_y - PADDLE_HALF_HEIGHT
}

/// The paddle that intercepts the ball, if any: the ball is in the paddle's
/// band, overlaps it vertically, and is still heading toward its side.
pub open spec fn struck_paddle(
    x: int,
    y: int,
    heading: Sign,
    left_paddle_y: int,
    right_paddle_y: int,
) -> Option<Side> {
    if heading == Sign::Positive && in_right_band(x) && overlaps_paddle(y, right_paddle_y) {
        Some(Side::Right)
    } else if heading == Sign::Negative && in_left_band(x) && overlaps_paddle(y, left_paddle_y) {
        Some(Side::Left)
    } else {
        None
    }
}

/// The horizontal heading of the ball once the paddles have had their say.
pub open spec fn paddle_bounced(heading: Sign, struck: Option<Side>) -> Sign {
    if struck is Some {
        heading.opposite()
    } else {
        heading
    }
}

/// Travel is never negative and never more than `MAX_TRAVEL`.
pub proof fn lemma_travel_bounds(speed: int, dt: int)
    requires
        0 <= speed <= BALL_SPEED_MAX,
        0 <= dt <= MAX_FRAME_MICROS,
    ensures
        0 <= travel(speed, dt) <= MAX_TRAVEL,
        travel(BALL_SPEED_MAX as int, MAX_FRAME_MICROS as int) == MAX_TRAVEL,
{
    assert(0 <= speed * dt <= BALL_SPEED_MAX * MAX_FRAME_MICROS) by (nonlinear_arith)
        requires
            0 <= speed <= BALL_SPEED_MAX,
            0 <= dt <= MAX_FRAME_MICROS,
    ;
}

/// Returns the distance that the ball covers along one axis in `dt`
/// microseconds at `speed` pixels per second.
pub(crate) fn measure_travel(speed: i64, dt: u32) -> (distance: i64)
    requires
        0 <= speed <= BALL_SPEED_MAX,
    ensures
        distance == travel(speed as int, dt as int),
        0 <= distance <= MAX_TRAVEL,
{
    proof {
        lemma_travel_bounds(speed as int, dt as int);
    }
    let ticks: i64 = speed * (dt as i64);
    ticks * UNITS_PER_SPEED_MICROSECOND
}

/// Returns the position of the ball along one axis after it has covered
/// `distance` in the direction of `heading`.
pub(crate) fn advance(position: i64, heading: Sign, distance: i64) -> (moved: i64)
    requires
        0 <= distance <= MAX_TRAVEL,
        -2 * MAX_TRAVEL <= position <= 2 * MAX_TRAVEL,
    ensures
        moved == (match heading {
            Sign::Positive => position + distance,
            Sign::Negative => position - distance,
        }),
{
    match heading {
        Sign::Positive => position + distance,
        Sign::Negative => position - distance,
    }
}

/// Returns the vertical heading of a ball at height `y` after the walls have
/// turned it, if they do.
pub fn bounce_off_walls(y: i64, heading: Sign) -> (after: Sign)
    ensures
        after == wall_bounced(y as int, heading),
{
    if y >= BALL_Y_MAX {
        Sign::Negative
    } else if y <= BALL_Y_MIN {
        Sign::Positive
    } else {
        heading
    }
}

/// Tells whether the vertical extent of the ball meets that of a paddle.
pub fn meets_paddle(ball_y: i64, paddle_y: i64) -> (meets: bool)
    ensures
        meets == overlaps_paddle(ball_y as int, paddle_y as int),
{
    let gap: i128 = ball_y as i128 - paddle_y as i128;
    let reach: i128 = (PADDLE_HALF_HEIGHT + BALL_RADIUS) as i128;
    -reach <= gap && gap <= reach
}

/// Finds the paddle that intercepts the ball, if any.
pub fn find_struck_paddle(
    x: i64,
    y: i64,
    heading: Sign,
    left_paddle_y: i64,
    right_paddle_y: i64,
) -> (struck: Option<Side>)
    ensures
        struck == struck_paddle(
            x as int,
            y as int,
            heading,
            left_paddle_y as int,
            right_paddle_y as int,
        ),
{
    match heading {
        Sign::Positive => {
            if x >= RIGHT_PADDLE_X - PADDLE_HALF_WIDTH - BALL_RADIUS && x <= RIGHT_PADDLE_X
                + BALL_RADIUS && meets_paddle(y, right_paddle_y) {
                Some(Side::Right)
            } else {
                None
            }
        },
        Sign::Negative => {
            if x <= LEFT_PADDLE_X + PADDLE_HALF_WIDTH + BALL_RADIUS && x >= LEFT_PADDLE_X
                - BALL_RADIUS && meets_paddle(y, left_paddle_y) {
                Some(Side::Left)
            } else {
                None
            }
        },
    }
}

} // verus!
