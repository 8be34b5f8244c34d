//! What holds of every game: laws of the step, each proved from the model in
//! [`crate::game`].

use crate::ball::{in_left_band, in_right_band, overlaps_paddle, travel};
use crate::clamp::clamped;
use crate::field::{
    in_pixels, BALL_DIAMETER, BALL_RADIUS, BALL_Y_MAX, BALL_Y_MIN, FIELD_BOTTOM, FIELD_CENTER_X,
    FIELD_CENTER_Y, FIELD_HALF_HEIGHT, FIELD_HALF_WIDTH, FIELD_HEIGHT, FIELD_LEFT, FIELD_RIGHT,
    FIELD_TOP, FIELD_WIDTH, LEFT_PADDLE_X, PADDLE_HALF_HEIGHT, PADDLE_HALF_WIDTH, PADDLE_HEIGHT,
    PADDLE_WIDTH, PADDLE_Y_MAX, PADDLE_Y_MIN, RIGHT_PADDLE_X, SERVE_SPREAD_X, SERVE_SPREAD_Y,
    UNITS_PER_PIXEL, UNITS_PER_SPEED_MICROSECOND,
};
use crate::frame::{frame_micros, MAX_FRAME_MICROS};
use crate::game::{GameModel, Inputs};
use crate::paddle::{paddle_in_range, paddle_moved, paddle_target};
use crate::score::ScoreEvent;
use crate::serve::ServeModel;
use crate::sign::{Side, Sign};
use crate::speed::{
    ball_speed_in_range, paddle_speed_for, ramp_steps, ramped_ball_speed, ramped_paddle_speed,
    BALL_SPEED_INCREMENT, BALL_SPEED_INITIAL, BALL_SPEED_MAX, PADDLE_SPEED_INCREMENT,
    PADDLE_SPEED_INITIAL, PADDLE_SPEED_MAX,
};
use vstd::prelude::*;

verus! {

/// One frame of a game: its length in microseconds, what the players asked
/// for, and the serve that follows if a point is scored.
pub struct Frame {
    pub dt: int,
    pub inputs: Inputs,
    pub serve: ServeModel,
}

impl Frame {
    /// Whether the frame is one that a step accepts.
    pub open spec fn valid(self) -> bool {
        0 <= self.dt <= MAX_FRAME_MICROS && self.serve.in_range()
    }
}

/// The state that a game is in after the given frames, played one after
/// another from `start`.
pub open spec fn played(start: GameModel, frames: Seq<Frame>) -> GameModel
    decreases frames.len(),
{
    if frames.len() == 0 {
        start
    } else {
        let last = frames.last();
        played(start, frames.drop_last()).step(last.dt, last.inputs, last.serve)
    }
}

/// Whether no point is scored during any of the given frames, played one
/// after another from `start`.
pub open spec fn rally(start: GameModel, frames: Seq<Frame>) -> bool
    decreases frames.len(),
{
    frames.len() > 0 ==> {
        &&& rally(start, frames.drop_last())
        &&& played(start, frames.drop_last()).score_event(frames.last().dt) is None
    }
}

/// The scale is exact: a pixel is a whole number of units, and so is the
/// distance covered in one microsecond at one pixel per second. The halves
/// are halves, the edges lie half the playfield from its center, and the
/// ball and the paddles keep their own half inside the edges.
pub proof fn law_field_measures()
    ensures
        UNITS_PER_SPEED_MICROSECOND * 1_000_000 == UNITS_PER_PIXEL,
        FIELD_WIDTH == 2 * FIELD_HALF_WIDTH == in_pixels(700),
        FIELD_HEIGHT == 2 * FIELD_HALF_HEIGHT == in_pixels(450),
        BALL_DIAMETER == 2 * BALL_RADIUS == in_pixels(32),
        PADDLE_WIDTH == 2 * PADDLE_HALF_WIDTH == in_pixels(10),
        PADDLE_HEIGHT == 2 * PADDLE_HALF_HEIGHT == in_pixels(80),
        FIELD_LEFT == FIELD_CENTER_X - FIELD_WIDTH / 2 == in_pixels(-350),
        FIELD_RIGHT == FIELD_CENTER_X + FIELD_WIDTH / 2 == in_pixels(350),
        FIELD_BOTTOM == FIELD_CENTER_Y - FIELD_HEIGHT / 2 == in_pixels(-250),
        FIELD_TOP == FIELD_CENTER_Y + FIELD_HEIGHT / 2 == in_pixels(200),
        BALL_Y_MIN == FIELD_BOTTOM + BALL_DIAMETER / 2 == in_pixels(-234),
        BALL_Y_MAX == FIELD_TOP - BALL_DIAMETER / 2 == in_pixels(184),
        PADDLE_Y_MIN == FIELD_BOTTOM + PADDLE_HEIGHT / 2 == in_pixels(-210),
        PADDLE_Y_MAX == FIELD_TOP - PADDLE_HEIGHT / 2 == in_pixels(160),
        LEFT_PADDLE_X == in_pixels(-330),
        RIGHT_PADDLE_X == in_pixels(330),
        SERVE_SPREAD_X == in_pixels(10),
        SERVE_SPREAD_Y == in_pixels(100),
        -SERVE_SPREAD_X > FIELD_LEFT && SERVE_SPREAD_X < FIELD_RIGHT,
        -SERVE_SPREAD_Y > BALL_Y_MIN && SERVE_SPREAD_Y < BALL_Y_MAX,
{
}

/// A game begins in a valid state.
pub proof fn law_opening_state_is_valid()
    ensures
        GameModel::initial().valid(),
{
}

/// Where the range is not empty, a clamped number lies in it and clamping it
/// once more changes nothing; a number in the range is its own clamp.
pub proof fn law_clamp_brings_into_range(value: int, low: int, high: int)
    ensures
        low <= high ==> low <= clamped(value, low, high) <= high,
        low <= value <= high ==> clamped(value, low, high) == value,
        low <= high ==> clamped(clamped(value, low, high), low, high) == clamped(
            value,
            low,
            high,
        ),
{
}

/// Whatever time a clock reports, the frame that goes with it has a length
/// that a step accepts; a time that runs backward gives a frame of no
/// length, and a time that a frame can hold is the length of its frame.
pub proof fn law_every_time_gives_a_frame(elapsed_micros: int)
    ensures
        0 <= frame_micros(elapsed_micros) <= MAX_FRAME_MICROS,
        elapsed_micros <= 0 ==> frame_micros(elapsed_micros) == 0,
        0 <= elapsed_micros <= MAX_FRAME_MICROS ==> frame_micros(elapsed_micros) == elapsed_micros,
{
}

/// Every state that a game reaches is valid: after every frame the ball's
/// speed is between its initial and its top value, the paddles' speed goes
/// with it, and both paddles are on the playfield.
pub proof fn law_every_state_is_valid(start: GameModel, frames: Seq<Frame>)
    requires
        start.valid(),
        forall|i: int| 0 <= i < frames.len() ==> (#[trigger] frames[i]).valid(),
    ensures
        played(start, frames).valid(),
        BALL_SPEED_INITIAL <= played(start, frames).ball_speed <= BALL_SPEED_MAX,
        PADDLE_SPEED_INITIAL <= played(start, frames).paddle_speed <= PADDLE_SPEED_MAX,
        paddle_in_range(played(start, frames).left_paddle_y),
        paddle_in_range(played(start, frames).right_paddle_y),
    decreases frames.len(),
{
    if frames.len() > 0 {
        let last = frames.last();
        law_every_state_is_valid(start, frames.drop_last());
        played(start, frames.drop_last()).lemma_step_keeps_valid(last.dt, last.inputs, last.serve);
    }
}

/// The ball never exceeds its top speed, and a step does not slow it down
/// unless it ends a rally in which the ball had gained speed.
pub proof fn law_ball_speed_never_falls(
    state: GameModel,
    dt: int,
    inputs: Inputs,
    serve: ServeModel,
)
    requires
        state.valid(),
        state.score_event(dt) is Some ==> state.ball_speed == BALL_SPEED_INITIAL,
    ensures
        state.ball_speed <= state.step(dt, inputs, serve).ball_speed <= BALL_SPEED_MAX,
{
}

/// Within a rally the ball never slows down, however many frames the rally
/// lasts.
pub proof fn law_ball_speed_never_falls_in_a_rally(start: GameModel, frames: Seq<Frame>)
    requires
        start.valid(),
        forall|i: int| 0 <= i < frames.len() ==> (#[trigger] frames[i]).valid(),
        rally(start, frames),
    ensures
        start.ball_speed <= played(start, frames).ball_speed <= BALL_SPEED_MAX,
    decreases frames.len(),
{
    if frames.len() > 0 {
        let last = frames.last();
        law_ball_speed_never_falls_in_a_rally(start, frames.drop_last());
        law_every_state_is_valid(start, frames.drop_last());
        law_ball_speed_never_falls(
            played(start, frames.drop_last()),
            last.dt,
            last.inputs,
            last.serve,
        );
    }
}

/// The paddles' speed is in proportion to the ball's: it starts at its
/// initial value, reaches its top value together with the ball, and in
/// between both keep the ratio of their initial values. The paddles take as
/// many steps of the ramp from their initial to their top speed as the ball
/// does.
pub proof fn law_paddle_speed_is_proportional(ball_speed: int)
    ensures
        paddle_speed_for(BALL_SPEED_INITIAL as int) == PADDLE_SPEED_INITIAL,
        paddle_speed_for(BALL_SPEED_MAX as int) == PADDLE_SPEED_MAX,
        paddle_speed_for(ball_speed) * BALL_SPEED_INITIAL == ball_speed * PADDLE_SPEED_INITIAL,
        PADDLE_SPEED_MAX * BALL_SPEED_INITIAL == PADDLE_SPEED_INITIAL * BALL_SPEED_MAX,
        PADDLE_SPEED_INCREMENT * ramp_steps(BALL_SPEED_MAX as int) == PADDLE_SPEED_MAX
            - PADDLE_SPEED_INITIAL,
        BALL_SPEED_INCREMENT * ramp_steps(BALL_SPEED_MAX as int) == BALL_SPEED_MAX
            - BALL_SPEED_INITIAL,
{
}

/// The ramp keeps the speeds in range and in proportion, and slows nothing
/// down. At top speed it changes nothing.
pub proof fn law_ramp_keeps_proportion(ball_speed: int)
    requires
        ball_speed_in_range(ball_speed),
    ensures
        ball_speed_in_range(ramped_ball_speed(ball_speed)),
        ramped_paddle_speed(ball_speed, paddle_speed_for(ball_speed)) == paddle_speed_for(
            ramped_ball_speed(ball_speed),
        ),
        ball_speed <= ramped_ball_speed(ball_speed),
        paddle_speed_for(ball_speed) <= ramped_paddle_speed(
            ball_speed,
            paddle_speed_for(ball_speed),
        ),
        ramped_ball_speed(BALL_SPEED_MAX as int) == BALL_SPEED_MAX,
        ramped_paddle_speed(BALL_SPEED_MAX as int, PADDLE_SPEED_MAX as int) == PADDLE_SPEED_MAX,
{
}

/// Travel is proportional to the time and to the speed.
pub proof fn law_travel_is_proportional(speed: int, other_speed: int, dt: int, more: int)
    ensures
        travel(speed, 0) == 0,
        travel(speed, dt + more) == travel(speed, dt) + travel(speed, more),
        travel(speed + other_speed, dt) == travel(speed, dt) + travel(other_speed, dt),
{
    assert(speed * (dt + more) == speed * dt + speed * more) by (nonlinear_arith);
    assert((speed + other_speed) * dt == speed * dt + other_speed * dt) by (nonlinear_arith);
}

/// A paddle is on the playfield after every move, wherever it was and
/// whatever its speed. A paddle that is on the playfield and is not asked to
/// move stays where it is, and one whose move keeps it on the playfield makes
/// that move in full.
pub proof fn law_paddle_move_is_clamped(y: int, speed: int, up: bool, down: bool)
    ensures
        paddle_in_range(paddle_moved(y, speed, up, down)),
        paddle_in_range(y) ==> paddle_moved(y, speed, false, false) == y,
        paddle_in_range(paddle_target(y, speed, up, down)) ==> paddle_moved(y, speed, up, down)
            == paddle_target(y, speed, up, down),
        paddle_moved(y, speed, true, down) == paddle_moved(y, speed, true, !down),
{
}

/// After a step both paddles are on the playfield, whatever the state
/// before it and whatever the players asked for.
pub proof fn law_paddles_stay_on_the_field(
    state: GameModel,
    dt: int,
    inputs: Inputs,
    serve: ServeModel,
)
    ensures
        paddle_in_range(state.step(dt, inputs, serve).left_paddle_y),
        paddle_in_range(state.step(dt, inputs, serve).right_paddle_y),
{
}

/// The walls turn exactly the ball that reaches them while heading their
/// way: one that moves up and reaches the upper wall is turned down, one
/// that moves down and reaches the lower wall is turned up, and every other
/// ball keeps its vertical heading, be it in contact with a wall or not.
pub proof fn law_wall_turns_exactly_the_approaching_ball(
    state: GameModel,
    dt: int,
    inputs: Inputs,
    serve: ServeModel,
)
    requires
        state.score_event(dt) is None,
    ensures
        state.step(dt, inputs, serve).ball_dir_y != state.ball_dir_y <==> {
            ||| state.ball_dir_y == Sign::Positive && state.next_ball_y(dt) >= BALL_Y_MAX
            ||| state.ball_dir_y == Sign::Negative && state.next_ball_y(dt) <= BALL_Y_MIN
        },
        state.step(dt, inputs, serve).ball_dir_y != state.ball_dir_y ==> state.step(
            dt,
            inputs,
            serve,
        ).ball_dir_y == state.ball_dir_y.opposite(),
{
}

/// The upper wall turns the ball once: the frame in which the ball reaches
/// the wall turns it down, and the next frame leaves it heading down though
/// the ball may still be in contact with the wall.
pub proof fn law_upper_wall_turns_ball_once(state: GameModel, first: Frame, second: Frame)
    requires
        state.ball_dir_y == Sign::Positive,
        state.next_ball_y(first.dt) >= BALL_Y_MAX,
        state.score_event(first.dt) is None,
        state.step(first.dt, first.inputs, first.serve).next_ball_y(second.dt) >= BALL_Y_MAX,
        state.step(first.dt, first.inputs, first.serve).score_event(second.dt) is None,
    ensures
        state.step(first.dt, first.inputs, first.serve).ball_dir_y == Sign::Negative,
        state.step(first.dt, first.inputs, first.serve).step(
            second.dt,
            second.inputs,
            second.serve,
        ).ball_dir_y == Sign::Negative,
{
}

/// The lower wall turns the ball once: the frame in which the ball reaches
/// the wall turns it up, and the next frame leaves it heading up though the
/// ball may still be in contact with the wall.
pub proof fn law_lower_wall_turns_ball_once(state: GameModel, first: Frame, second: Frame)
    requires
        state.ball_dir_y == Sign::Negative,
        state.next_ball_y(first.dt) <= BALL_Y_MIN,
        state.score_event(first.dt) is None,
        state.step(first.dt, first.inputs, first.serve).next_ball_y(second.dt) <= BALL_Y_MIN,
        state.step(first.dt, first.inputs, first.serve).score_event(second.dt) is None,
    ensures
        state.step(first.dt, first.inputs, first.serve).ball_dir_y == Sign::Positive,
        state.step(first.dt, first.inputs, first.serve).step(
            second.dt,
            second.inputs,
            second.serve,
        ).ball_dir_y == Sign::Positive,
{
}

/// A paddle turns exactly the ball that it meets: one that is heading its
/// way, has reached its band and overlaps it vertically. The step reports
/// the hit, turns the ball back, and scores no point; every other ball keeps
/// its horizontal heading for as long as the rally lasts.
pub proof fn law_paddle_turns_exactly_the_ball_it_meets(
    state: GameModel,
    dt: int,
    inputs: Inputs,
    serve: ServeModel,
)
    ensures
        state.report(dt).paddle_hit == Some(Side::Right) <==> {
            &&& state.ball_dir_x == Sign::Positive
            &&& in_right_band(state.next_ball_x(dt))
            &&& overlaps_paddle(state.next_ball_y(dt), state.right_paddle_y)
        },
        state.report(dt).paddle_hit == Some(Side::Left) <==> {
            &&& state.ball_dir_x == Sign::Negative
            &&& in_left_band(state.next_ball_x(dt))
            &&& overlaps_paddle(state.next_ball_y(dt), state.left_paddle_y)
        },
        state.report(dt).paddle_hit is Some ==> {
            &&& state.report(dt).score is None
            &&& state.step(dt, inputs, serve).ball_dir_x == state.ball_dir_x.opposite()
        },
        state.report(dt).paddle_hit is None && state.report(dt).score is None ==> state.step(
            dt,
            inputs,
            serve,
        ).ball_dir_x == state.ball_dir_x,
{
}

/// The right paddle turns the ball once: the frame in which it intercepts
/// the ball turns the ball to the left, and the next frame leaves it heading
/// left and reports no hit though the ball may still be in the paddle's
/// band.
pub proof fn law_right_paddle_turns_ball_once(state: GameModel, first: Frame, second: Frame)
    requires
        state.ball_dir_x == Sign::Positive,
        in_right_band(state.next_ball_x(first.dt)),
        overlaps_paddle(state.next_ball_y(first.dt), state.right_paddle_y),
        in_right_band(state.step(first.dt, first.inputs, first.serve).next_ball_x(second.dt)),
    ensures
        state.report(first.dt).paddle_hit == Some(Side::Right),
        state.step(first.dt, first.inputs, first.serve).ball_dir_x == Sign::Negative,
        state.step(first.dt, first.inputs, first.serve).report(second.dt).paddle_hit is None,
        state.step(first.dt, first.inputs, first.serve).step(
            second.dt,
            second.inputs,
            second.serve,
        ).ball_dir_x == Sign::Negative,
{
}

/// The left paddle turns the ball once: the frame in which it intercepts the
/// ball turns the ball to the right, and the next frame leaves it heading
/// right and reports no hit though the ball may still be in the paddle's
/// band.
pub proof fn law_left_paddle_turns_ball_once(state: GameModel, first: Frame, second: Frame)
    requires
        state.ball_dir_x == Sign::Negative,
        in_left_band(state.next_ball_x(first.dt)),
        overlaps_paddle(state.next_ball_y(first.dt), state.left_paddle_y),
        in_left_band(state.step(first.dt, first.inputs, first.serve).next_ball_x(second.dt)),
    ensures
        state.report(first.dt).paddle_hit == Some(Side::Left),
        state.step(first.dt, first.inputs, first.serve).ball_dir_x == Sign::Positive,
        state.step(first.dt, first.inputs, first.serve).report(second.dt).paddle_hit is None,
        state.step(first.dt, first.inputs, first.serve).step(
            second.dt,
            second.inputs,
            second.serve,
        ).ball_dir_x == Sign::Positive,
{
}

/// A ball that passes a paddle's band without overlapping the paddle
/// vertically goes on untouched.
pub proof fn law_paddle_out_of_reach_lets_ball_pass(
    state: GameModel,
    dt: int,
    inputs: Inputs,
    serve: ServeModel,
)
    requires
        state.score_event(dt) is None,
        state.ball_dir_x == Sign::Positive ==> !overlaps_paddle(
            state.next_ball_y(dt),
            state.right_paddle_y,
        ),
        state.ball_dir_x == Sign::Negative ==> !overlaps_paddle(
            state.next_ball_y(dt),
            state.left_paddle_y,
        ),
    ensures
        state.report(dt).paddle_hit is None,
        state.step(dt, inputs, serve).ball_dir_x == state.ball_dir_x,
        state.step(dt, inputs, serve).ball_x == state.next_ball_x(dt),
{
}

/// A ball whose center reaches the right edge of the playfield gives the
/// left player exactly one point; one whose center reaches the left edge
/// gives the right player exactly one point. Either way the other score
/// stays, the ball is served, and both speeds are back at their initial
/// values.
pub proof fn law_point_is_counted(state: GameModel, dt: int, inputs: Inputs, serve: ServeModel)
    ensures
        state.next_ball_x(dt) >= FIELD_RIGHT ==> {
            &&& state.report(dt).score == Some(ScoreEvent::LeftScored)
            &&& state.step(dt, inputs, serve).left_score == state.left_score + 1
            &&& state.step(dt, inputs, serve).right_score == state.right_score
        },
        state.next_ball_x(dt) <= FIELD_LEFT ==> {
            &&& state.report(dt).score == Some(ScoreEvent::RightScored)
            &&& state.step(dt, inputs, serve).right_score == state.right_score + 1
            &&& state.step(dt, inputs, serve).left_score == state.left_score
        },
        state.next_ball_x(dt) >= FIELD_RIGHT || state.next_ball_x(dt) <= FIELD_LEFT ==> {
            &&& state.step(dt, inputs, serve).ball_speed == BALL_SPEED_INITIAL
            &&& state.step(dt, inputs, serve).paddle_speed == PADDLE_SPEED_INITIAL
            &&& state.step(dt, inputs, serve).ball_x == serve.x
            &&& state.step(dt, inputs, serve).ball_y == serve.y
            &&& state.step(dt, inputs, serve).ball_dir_x == serve.dir_x
            &&& state.step(dt, inputs, serve).ball_dir_y == serve.dir_y
        },
{
}

/// A step scores at most one point, takes none away, and scores none while
/// the ball's center is between the edges of the playfield. A step that
/// scores does not also report a paddle hit.
pub proof fn law_scores_only_grow(state: GameModel, dt: int, inputs: Inputs, serve: ServeModel)
    ensures
        state.left_score <= state.step(dt, inputs, serve).left_score,
        state.right_score <= state.step(dt, inputs, serve).right_score,
        state.step(dt, inputs, serve).left_score + state.step(dt, inputs, serve).right_score
            <= state.left_score + state.right_score + 1,
        FIELD_LEFT < state.next_ball_x(dt) < FIELD_RIGHT ==> {
            &&& state.report(dt).score is None
            &&& state.step(dt, inputs, serve).left_score == state.left_score
            &&& state.step(dt, inputs, serve).right_score == state.right_score
        },
        state.report(dt).score is Some ==> state.report(dt).paddle_hit is None,
{
}

/// The serve matters only to a step that scores.
pub proof fn law_serve_waits_for_a_point(
    state: GameModel,
    dt: int,
    inputs: Inputs,
    serve: ServeModel,
    other: ServeModel,
)
    requires
        state.score_event(dt) is None,
    ensures
        state.step(dt, inputs, serve) == state.step(dt, inputs, other),
{
}

/// A frame without events changes nothing but the ball's position and the
/// speeds: where no key is held, the ball meets neither wall nor paddle
/// and no point is scored, the paddles and the scores stay as they are, the
/// ball keeps its headings and moves on by its travel, and the speeds
/// advance by one step of the ramp.
pub proof fn law_quiet_frame_moves_only_the_ball(state: GameModel, dt: int, serve: ServeModel)
    requires
        state.valid(),
        BALL_Y_MIN < state.next_ball_y(dt) < BALL_Y_MAX,
        FIELD_LEFT < state.next_ball_x(dt) < FIELD_RIGHT,
        state.paddle_hit(dt) is None,
    ensures
        state.step(dt, Inputs::idle(), serve) == (GameModel {
            ball_x: state.next_ball_x(dt),
            ball_y: state.next_ball_y(dt),
            ball_speed: state.next_ball_speed(),
            paddle_speed: state.next_paddle_speed(),
            ..state
        }),
        state.report(dt).paddle_hit is None,
        state.report(dt).score is None,
{
}

/// Once the ramp is complete, a frame without events changes nothing but
/// the ball's position, and that in proportion to the length of the frame.
pub proof fn law_quiet_frame_at_top_speed(state: GameModel, dt: int, serve: ServeModel)
    requires
        state.valid(),
        state.ball_speed == BALL_SPEED_MAX,
        BALL_Y_MIN < state.next_ball_y(dt) < BALL_Y_MAX,
        FIELD_LEFT < state.next_ball_x(dt) < FIELD_RIGHT,
        state.paddle_hit(dt) is None,
    ensures
        state.step(dt, Inputs::idle(), serve) == (GameModel {
            ball_x: state.ball_x + state.ball_dir_x.value() * (BALL_SPEED_MAX * dt
                * UNITS_PER_SPEED_MICROSECOND),
            ball_y: state.ball_y + state.ball_dir_y.value() * (BALL_SPEED_MAX * dt
                * UNITS_PER_SPEED_MICROSECOND),
            ..state
        }),
{
}

/// A frame of no length leaves the ball where it is.
pub proof fn law_no_time_no_motion(state: GameModel)
    ensures
        state.next_ball_x(0) == state.ball_x,
        state.next_ball_y(0) == state.ball_y,
{
}

} // verus!
