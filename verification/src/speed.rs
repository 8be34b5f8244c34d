//! The speed ramp: with every frame the ball gets a little faster, and the
//! paddles with it, until the ball has reached its top speed.

use crate::field::UNITS_PER_PIXEL;
use vstd::prelude::*;

verus! {

/// Speed of the ball at the start of a rally, in pixels per second.
pub const BALL_SPEED_INITIAL: i64 = 450;

/// Top speed of the ball, in pixels per second.
pub const BALL_SPEED_MAX: i64 = 900;

/// What one frame adds to the speed of the ball, in pixels per second.
pub const BALL_SPEED_INCREMENT: i64 = 1;

/// Speed of the paddles at the start of a rally, in units per frame.
pub const PADDLE_SPEED_INITIAL: i64 = 10 * UNITS_PER_PIXEL;

/// Top speed of the paddles, in units per frame.
pub const PADDLE_SPEED_MAX: i64 = 20 * UNITS_PER_PIXEL;

/// What one frame adds to the speed of the paddles, in units per frame.
pub const PADDLE_SPEED_INCREMENT: i64 = 200_000;

/// The speed of the ball after one frame of the ramp.
pub open spec fn ramped_ball_speed(ball_speed: int) -> int {
    if ball_speed < BALL_SPEED_MAX {
        ball_speed + BALL_SPEED_INCREMENT
    } else {
        ball_speed
    }
}

/// The speed of the paddles after one frame of the ramp. The paddles gain
/// speed for as long as the ball does.
pub open spec fn ramped_paddle_speed(ball_speed: int, paddle_speed: int) -> int {
    if ball_speed < BALL_SPEED_MAX {
        paddle_speed + PADDLE_SPEED_INCREMENT
    } else {
        paddle_speed
    }
}

/// The number of frames that it takes the ramp to bring the ball from its
/// initial speed to `ball_speed`.
pub open spec fn ramp_steps(ball_speed: int) -> int {
    (ball_speed - BALL_SPEED_INITIAL) / (BALL_SPEED_INCREMENT as int)
}

/// The speed of the paddles that goes with a speed of the ball: both have
/// been ramped up from their initial values the same number of times.
pub open spec fn paddle_speed_for(ball_speed: int) -> int {
    PADDLE_SPEED_INITIAL + ramp_steps(ball_speed) * PADDLE_SPEED_INCREMENT
}

/// Whether `ball_speed` is a speed that the ball can have.
pub open spec fn ball_speed_in_range(ball_speed: int) -> bool {
    BALL_SPEED_INITIAL <= ball_speed <= BALL_SPEED_MAX
}

/// Returns the speed of the paddles that goes with a speed of the ball.
pub(crate) fn matching_paddle_speed(ball_speed: i64) -> (paddle_speed: i64)
    requires
        ball_speed_in_range(ball_speed as int),
    ensures
        paddle_speed == paddle_speed_for(ball_speed as int),
{
    let steps: i64 = (ball_speed - BALL_SPEED_INITIAL) / BALL_SPEED_INCREMENT;
    PADDLE_SPEED_INITIAL + steps * PADDLE_SPEED_INCREMENT
}

/// Returns the speeds of the ball and of the paddles after one frame of the
/// ramp.
pub(crate) fn ramp_speeds(ball_speed: i64, paddle_speed: i64) -> (ramped: (i64, i64))
    requires
        ball_speed_in_range(ball_speed as int),
        paddle_speed == paddle_speed_for(ball_speed as int),
    ensures
        ramped.0 == ramped_ball_speed(ball_speed as int),
        ramped.1 == ramped_paddle_speed(ball_speed as int, paddle_speed as int),
        ball_speed_in_range(ramped.0 as int),
        ramped.1 == paddle_speed_for(ramped.0 as int),
{
    if ball_speed < BALL_SPEED_MAX {
        (ball_speed + BALL_SPEED_INCREMENT, paddle_speed + PADDLE_SPEED_INCREMENT)
    } else {
        (ball_speed, paddle_speed)
    }
}

} // verus!
