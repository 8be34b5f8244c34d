//! The game: its state, and the step that takes it from one frame to the
//! next.
//!
//! A step does five things, in this order:
//!
//! 1. it ramps the speeds of the ball and of the paddles;
//! 2. it moves the ball;
//! 3. it turns the ball where it meets a wall or a paddle;
//! 4. it moves the paddles and keeps them on the playfield;
//! 5. it counts a point where the ball has left the playfield, and serves
//!    the ball anew.
//!
//! The ramp advances once with every step, whatever the length of the frame.

use crate::ball::{
    advance, advanced, ball_in_place, bounce_off_walls, find_struck_paddle, lemma_travel_bounds,
    measure_travel, paddle_bounced, struck_paddle, wall_bounced, MAX_TRAVEL,
};
use crate::frame::MAX_FRAME_MICROS;
use crate::field::{BALL_Y_MAX, BALL_Y_MIN, FIELD_LEFT, FIELD_RIGHT, PADDLE_Y_MAX, PADDLE_Y_MIN};
use crate::paddle::{move_paddle, paddle_in_range, paddle_moved};
use crate::score::{find_point, left_score_after, point_scored, right_score_after, ScoreEvent};
use crate::serve::{Serve, ServeModel};
use crate::sign::{Side, Sign};
use crate::speed::{
    ball_speed_in_range, matching_paddle_speed, paddle_speed_for, ramp_speeds, ramped_ball_speed,
    ramped_paddle_speed, BALL_SPEED_INITIAL, BALL_SPEED_MAX, PADDLE_SPEED_INITIAL,
};
use vstd::prelude::*;

verus! {

/// What the players ask of their paddles during one frame.
#[derive(Clone, Copy, Debug, PartialEq, Eq)]
pub struct Inputs {
    pub left_up: bool,
    pub left_down: bool,
    pub right_up: bool,
    pub right_down: bool,
}

impl Inputs {
    /// The inputs of a frame in which no key is held.
    pub open spec fn spec_idle() -> Inputs {
        Inputs { left_up: false, left_down: false, right_up: false, right_down: false }
    }

    /// Returns the inputs of a frame in which no key is held.
    #[verifier::when_used_as_spec(spec_idle)]
    pub fn idle() -> (inputs: Inputs)
        ensures
            inputs == Inputs::spec_idle(),
    {
        Inputs { left_up: false, left_down: false, right_up: false, right_down: false }
    }
}

/// What happened during one step that the outside may want to know of.
#[derive(Clone, Copy, Debug, PartialEq, Eq)]
pub struct StepReport {
    /// The paddle that turned the ball, if one did.
    pub paddle_hit: Option<Side>,
    /// The point that was scored, if one was.
    pub score: Option<ScoreEvent>,
}

/// The state of the game, as the contracts see it.
pub struct GameModel {
    pub ball_x: int,
    pub ball_y: int,
    pub ball_dir_x: Sign,
    pub ball_dir_y: Sign,
    /// In pixels per second.
    pub ball_speed: int,
    /// In units per frame.
    pub paddle_speed: int,
    pub left_paddle_y: int,
    pub right_paddle_y: int,
    pub left_score: nat,
    pub right_score: nat,
}

impl GameModel {
    /// The state in which a game begins.
    pub open spec fn initial() -> GameModel {
        GameModel {
            ball_x: 0,
            ball_y: 0,
            ball_dir_x: Sign::Positive,
            ball_dir_y: Sign::Positive,
            ball_speed: BALL_SPEED_INITIAL as int,
            paddle_speed: PADDLE_SPEED_INITIAL as int,
            left_paddle_y: 0,
            right_paddle_y: 0,
            left_score: 0,
            right_score: 0,
        }
    }

    /// Whether this is a state that a game can be in between two frames:
    /// the ball is in place, its speed is in range and the paddles' speed
    /// goes with it, and the paddles are on the playfield.
    pub open spec fn valid(self) -> bool {
        &&& ball_in_place(self.ball_x, self.ball_y, self.ball_dir_y)
        &&& ball_speed_in_range(self.ball_speed)
        &&& self.paddle_speed == paddle_speed_for(self.ball_speed)
        &&& paddle_in_range(self.left_paddle_y)
        &&& paddle_in_range(self.right_paddle_y)
    }

    /// The speed at which the ball moves during the coming step.
    pub open spec fn next_ball_speed(self) -> int {
        ramped_ball_speed(self.ball_speed)
    }

    /// The speed at which the paddles move during the coming step.
    pub open spec fn next_paddle_speed(self) -> int {
        ramped_paddle_speed(self.ball_speed, self.paddle_speed)
    }

    /// Where the ball's motion takes it within `dt` microseconds,
    /// horizontally.
    pub open spec fn next_ball_x(self, dt: int) -> int {
        advanced(self.ball_x, self.ball_dir_x, self.next_ball_speed(), dt)
    }

    /// Where the ball's motion takes it within `dt` microseconds,
    /// vertically.
    pub open spec fn next_ball_y(self, dt: int) -> int {
        advanced(self.ball_y, self.ball_dir_y, self.next_ball_speed(), dt)
    }

    /// The paddle that turns the ball during a step of `dt` microseconds, if
    /// one does. The ball meets the paddles where they stood before the
    /// step.
    pub open spec fn paddle_hit(self, dt: int) -> Option<Side> {
        struck_paddle(
            self.next_ball_x(dt),
            self.next_ball_y(dt),
            self.ball_dir_x,
            self.left_paddle_y,
            self.right_paddle_y,
        )
    }

    /// The point that is scored during a step of `dt` microseconds, if one
    /// is.
    pub open spec fn score_event(self, dt: int) -> Option<ScoreEvent> {
        point_scored(self.next_ball_x(dt))
    }

    /// What a step of `dt` microseconds reports.
    pub open spec fn report(self, dt: int) -> StepReport {
        StepReport { paddle_hit: self.paddle_hit(dt), score: self.score_event(dt) }
    }

    /// The state after the first four parts of a step: the speeds ramped, the
    /// ball moved and turned, the paddles moved.
    pub open spec fn in_play(self, dt: int, inputs: Inputs) -> GameModel {
        GameModel {
            ball_x: self.next_ball_x(dt),
            ball_y: self.next_ball_y(dt),
            ball_dir_x: paddle_bounced(self.ball_dir_x, self.paddle_hit(dt)),
            ball_dir_y: wall_bounced(self.next_ball_y(dt), self.ball_dir_y),
            ball_speed: self.next_ball_speed(),
            paddle_speed: self.next_paddle_speed(),
            left_paddle_y: paddle_moved(
                self.left_paddle_y,
                self.next_paddle_speed(),
                inputs.left_up,
                inputs.left_down,
            ),
            right_paddle_y: paddle_moved(
                self.right_paddle_y,
                self.next_paddle_speed(),
                inputs.right_up,
                inputs.right_down,
            ),
            left_score: self.left_score,
            right_score: self.right_score,
        }
    }

    /// The state after a point: the point is counted, the ball is served,
    /// and both speeds are back at their initial values. The paddles stay
    /// where they are.
    pub open spec fn served(self, event: ScoreEvent, serve: ServeModel) -> GameModel {
        GameModel {
            ball_x: serve.x,
            ball_y: serve.y,
            ball_dir_x: serve.dir_x,
            ball_dir_y: serve.dir_y,
            ball_speed: BALL_SPEED_INITIAL as int,
            paddle_speed: PADDLE_SPEED_INITIAL as int,
            left_paddle_y: self.left_paddle_y,
            right_paddle_y: self.right_paddle_y,
            left_score: left_score_after(self.left_score, Some(event)),
            right_score: right_score_after(self.right_score, Some(event)),
        }
    }

    /// The state after a step of `dt` microseconds with the given inputs,
    /// where `serve` is the serve that follows a point.
    pub open spec fn step(self, dt: int, inputs: Inputs, serve: ServeModel) -> GameModel {
        match self.score_event(dt) {
            None => self.in_play(dt, inputs),
            Some(event) => self.in_play(dt, inputs).served(event, serve),
        }
    }

    /// Whether the score that a step of `dt` microseconds raises, if it
    /// raises one, has room for one more point.
    pub open spec fn score_fits(self, dt: int) -> bool {
        match self.score_event(dt) {
            None => true,
            Some(ScoreEvent::LeftScored) => self.left_score < u32::MAX,
            Some(ScoreEvent::RightScored) => self.right_score < u32::MAX,
        }
    }

    /// A step takes a valid state to a valid state.
    pub proof fn lemma_step_keeps_valid(self, dt: int, inputs: Inputs, serve: ServeModel)
        requires
            self.valid(),
            0 <= dt <= MAX_FRAME_MICROS,
            serve.in_range(),
        ensures
            self.step(dt, inputs, serve).valid(),
    {
        lemma_travel_bounds(self.next_ball_speed(), dt);
    }
}

/// The state of the game. Every value of this type is a state that a game
/// can be in between two frames: its view is valid.
#[derive(Clone, Copy, Debug, PartialEq, Eq)]
pub struct GameState {
    ball_x: i64,
    ball_y: i64,
    ball_dir_x: Sign,
    ball_dir_y: Sign,
    ball_speed: i64,
    paddle_speed: i64,
    left_paddle_y: i64,
    right_paddle_y: i64,
    left_score: u32,
    right_score: u32,
}

impl View for GameState {
    type V = GameModel;

    closed spec fn view(&self) -> GameModel {
        GameModel {
            ball_x: self.ball_x as int,
            ball_y: self.ball_y as int,
            ball_dir_x: self.ball_dir_x,
            ball_dir_y: self.ball_dir_y,
            ball_speed: self.ball_speed as int,
            paddle_speed: self.paddle_speed as int,
            left_paddle_y: self.left_paddle_y as int,
            right_paddle_y: self.right_paddle_y as int,
            left_score: self.left_score as nat,
            right_score: self.right_score as nat,
        }
    }
}

impl GameState {
    #[verifier::type_invariant]
    spec fn well_formed(self) -> bool {
        self@.valid()
    }

    /// Returns the state in which a game begins: the ball at the origin,
    /// heading up and to the right at its initial speed, the paddles at
    /// height zero, and no points on either side.
    pub fn new() -> (game: GameState)
        ensures
            game@ == GameModel::initial(),
            game@.valid(),
    {
        GameState {
            ball_x: 0,
            ball_y: 0,
            ball_dir_x: Sign::Positive,
            ball_dir_y: Sign::Positive,
            ball_speed: BALL_SPEED_INITIAL,
            paddle_speed: PADDLE_SPEED_INITIAL,
            left_paddle_y: 0,
            right_paddle_y: 0,
            left_score: 0,
            right_score: 0,
        }
    }

    /// Returns the game with the ball put at `(x, y)` on the given headings, or
    /// `None` if that is no place for the ball: off the playfield
    /// horizontally, more than one frame's travel beyond a wall, or reaching
    /// into a wall and not heading back.
    pub fn with_ball(self, x: i64, y: i64, dir_x: Sign, dir_y: Sign) -> (game: Option<GameState>)
        ensures
            game is Some <==> ball_in_place(x as int, y as int, dir_y),
            game matches Some(placed) ==> placed@ == (GameModel {
                ball_x: x as int,
                ball_y: y as int,
                ball_dir_x: dir_x,
                ball_dir_y: dir_y,
                ..self@
            }) && placed@.valid(),
    {
        proof {
            use_type_invariant(&self);
        }
        let on_field: bool = FIELD_LEFT <= x && x <= FIELD_RIGHT;
        let within_reach: bool = BALL_Y_MIN - MAX_TRAVEL <= y && y <= BALL_Y_MAX + MAX_TRAVEL;
        let heading_back: bool = match dir_y {
            Sign::Positive => y < BALL_Y_MAX,
            Sign::Negative => y > BALL_Y_MIN,
        };
        if on_field && within_reach && heading_back {
            Some(GameState { ball_x: x, ball_y: y, ball_dir_x: dir_x, ball_dir_y: dir_y, ..self })
        } else {
            None
        }
    }

    /// Returns the game with the ball at the given speed, in pixels per
    /// second, and the paddles at the speed that goes with it; or `None` if
    /// the ball cannot have that speed.
    pub fn with_ball_speed(self, ball_speed: i64) -> (game: Option<GameState>)
        ensures
            game is Some <==> ball_speed_in_range(ball_speed as int),
            game matches Some(set) ==> set@ == (GameModel {
                ball_speed: ball_speed as int,
                paddle_speed: paddle_speed_for(ball_speed as int),
                ..self@
            }) && set@.valid(),
    {
        proof {
            use_type_invariant(&self);
        }
        if BALL_SPEED_INITIAL <= ball_speed && ball_speed <= BALL_SPEED_MAX {
            let paddle_speed: i64 = matching_paddle_speed(ball_speed);
            Some(GameState { ball_speed, paddle_speed, ..self })
        } else {
            None
        }
    }

    /// Returns the game with the paddles at the given heights, or `None` if
    /// one of them would be off the playfield.
    pub fn with_paddles(self, left_y: i64, right_y: i64) -> (game: Option<GameState>)
        ensures
            game is Some <==> paddle_in_range(left_y as int) && paddle_in_range(right_y as int),
            game matches Some(set) ==> set@ == (GameModel {
                left_paddle_y: left_y as int,
                right_paddle_y: right_y as int,
                ..self@
            }) && set@.valid(),
    {
        proof {
            use_type_invariant(&self);
        }
        if PADDLE_Y_MIN <= left_y && left_y <= PADDLE_Y_MAX && PADDLE_Y_MIN <= right_y && right_y
            <= PADDLE_Y_MAX {
            Some(GameState { left_paddle_y: left_y, right_paddle_y: right_y, ..self })
        } else {
            None
        }
    }

    /// Returns the game with the given scores.
    pub fn with_scores(self, left: u32, right: u32) -> (game: GameState)
        ensures
            game@ == (GameModel { left_score: left as nat, right_score: right as nat, ..self@ }),
            game@.valid(),
    {
        proof {
            use_type_invariant(&self);
        }
        GameState { left_score: left, right_score: right, ..self }
    }

    /// Horizontal position of the ball's center.
    pub fn ball_x(&self) -> (x: i64)
        ensures
            x == self@.ball_x,
            FIELD_LEFT <= x <= FIELD_RIGHT,
    {
        proof {
            use_type_invariant(self);
        }
        self.ball_x
    }

    /// Vertical position of the ball's center.
    pub fn ball_y(&self) -> (y: i64)
        ensures
            y == self@.ball_y,
            BALL_Y_MIN - MAX_TRAVEL <= y <= BALL_Y_MAX + MAX_TRAVEL,
    {
        proof {
            use_type_invariant(self);
        }
        self.ball_y
    }

    /// Horizontal heading of the ball.
    pub fn ball_dir_x(&self) -> (dir: Sign)
        ensures
            dir == self@.ball_dir_x,
    {
        self.ball_dir_x
    }

    /// Vertical heading of the ball.
    pub fn ball_dir_y(&self) -> (dir: Sign)
        ensures
            dir == self@.ball_dir_y,
            self@.ball_y >= BALL_Y_MAX ==> dir == Sign::Negative,
            self@.ball_y <= BALL_Y_MIN ==> dir == Sign::Positive,
    {
        proof {
            use_type_invariant(self);
        }
        self.ball_dir_y
    }

    /// Speed of the ball, in pixels per second.
    pub fn ball_speed(&self) -> (speed: i64)
        ensures
            speed == self@.ball_speed,
            BALL_SPEED_INITIAL <= speed <= BALL_SPEED_MAX,
    {
        proof {
            use_type_invariant(self);
        }
        self.ball_speed
    }

    /// Speed of the paddles, in units per frame.
    pub fn paddle_speed(&self) -> (speed: i64)
        ensures
            speed == self@.paddle_speed,
            speed == paddle_speed_for(self@.ball_speed),
    {
        proof {
            use_type_invariant(self);
        }
        self.paddle_speed
    }

    /// Vertical position of the left paddle's center.
    pub fn left_paddle_y(&self) -> (y: i64)
        ensures
            y == self@.left_paddle_y,
            paddle_in_range(y as int),
    {
        proof {
            use_type_invariant(self);
        }
        self.left_paddle_y
    }

    /// Vertical position of the right paddle's center.
    pub fn right_paddle_y(&self) -> (y: i64)
        ensures
            y == self@.right_paddle_y,
            paddle_in_range(y as int),
    {
        proof {
            use_type_invariant(self);
        }
        self.right_paddle_y
    }

    /// Points of the left player.
    pub fn left_score(&self) -> (score: u32)
        ensures
            score == self@.left_score,
    {
        self.left_score
    }

    /// Points of the right player.
    pub fn right_score(&self) -> (score: u32)
        ensures
            score == self@.right_score,
    {
        self.right_score
    }

    /// Tells which point the coming step of `dt` microseconds scores, if it
    /// scores one.
    pub fn upcoming_score(&self, dt: u32) -> (event: Option<ScoreEvent>)
        ensures
            event == self@.score_event(dt as int),
    {
        proof {
            use_type_invariant(self);
        }
        let (ball_speed, _) = ramp_speeds(self.ball_speed, self.paddle_speed);
        let distance: i64 = measure_travel(ball_speed, dt);
        let x: i64 = advance(self.ball_x, self.ball_dir_x, distance);
        find_point(x)
    }

    /// Tells whether the coming step of `dt` microseconds can be taken: it
    /// cannot where it would raise a score that is at its limit.
    pub fn can_step(&self, dt: u32) -> (fits: bool)
        ensures
            fits == self@.score_fits(dt as int),
    {
        match self.upcoming_score(dt) {
            None => true,
            Some(ScoreEvent::LeftScored) => self.left_score < u32::MAX,
            Some(ScoreEvent::RightScored) => self.right_score < u32::MAX,
        }
    }

    /// Advances the game by one frame of `dt` microseconds. If a point is
    /// scored during the frame, the ball is served as `serve` says.
    pub fn step_with(&mut self, dt: u32, inputs: Inputs, serve: Serve) -> (report: StepReport)
        requires
            old(self)@.score_fits(dt as int),
        ensures
            final(self)@ == old(self)@.step(dt as int, inputs, serve@),
            report == old(self)@.report(dt as int),
            final(self)@.valid(),
    {
        let serve_x: i64 = serve.x();
        let serve_y: i64 = serve.y();
        proof {
            use_type_invariant(&*self);
            self@.lemma_step_keeps_valid(dt as int, inputs, serve@);
        }
        let (ball_speed, paddle_speed) = ramp_speeds(self.ball_speed, self.paddle_speed);
        let distance: i64 = measure_travel(ball_speed, dt);
        let x: i64 = advance(self.ball_x, self.ball_dir_x, distance);
        let y: i64 = advance(self.ball_y, self.ball_dir_y, distance);
        let dir_y = bounce_off_walls(y, self.ball_dir_y);
        let paddle_hit = find_struck_paddle(
            x,
            y,
            self.ball_dir_x,
            self.left_paddle_y,
            self.right_paddle_y,
        );
        let dir_x = match paddle_hit {
            Some(_) => self.ball_dir_x.flipped(),
            None => self.ball_dir_x,
        };
        let left_paddle_y: i64 = move_paddle(
            self.left_paddle_y,
            paddle_speed,
            inputs.left_up,
            inputs.left_down,
        );
        let right_paddle_y: i64 = move_paddle(
            self.right_paddle_y,
            paddle_speed,
            inputs.right_up,
            inputs.right_down,
        );
        let score = find_point(x);
        let left_score: u32 = self.left_score;
        let right_score: u32 = self.right_score;
        *self = match score {
            None => GameState {
                ball_x: x,
                ball_y: y,
                ball_dir_x: dir_x,
                ball_dir_y: dir_y,
                ball_speed,
                paddle_speed,
                left_paddle_y,
                right_paddle_y,
                left_score,
                right_score,
            },
            Some(event) => GameState {
                ball_x: serve_x,
                ball_y: serve_y,
                ball_dir_x: serve.dir_x(),
                ball_dir_y: serve.dir_y(),
                ball_speed: BALL_SPEED_INITIAL,
                paddle_speed: PADDLE_SPEED_INITIAL,
                left_paddle_y,
                right_paddle_y,
                left_score: match event {
                    ScoreEvent::LeftScored => left_score + 1,
                    ScoreEvent::RightScored => left_score,
                },
                right_score: match event {
                    ScoreEvent::LeftScored => right_score,
                    ScoreEvent::RightScored => right_score + 1,
                },
            },
        };
        StepReport { paddle_hit, score }
    }

    /// Advances the game by one frame of `dt` microseconds. If a point is
    /// scored during the frame, the ball is served at random.
    pub fn step(&mut self, dt: u32, inputs: Inputs) -> (report: StepReport)
        requires
            old(self)@.score_fits(dt as int),
        ensures
            exists|serve: ServeModel| #[trigger]
                serve.in_range() && final(self)@ == old(self)@.step(dt as int, inputs, serve),
            report == old(self)@.report(dt as int),
            final(self)@.valid(),
    {
        let serve = match self.upcoming_score(dt) {
            Some(_) => Serve::random(),
            None => Serve::opening(),
        };
        let report = self.step_with(dt, inputs, serve);
        proof {
            assert(serve@.in_range() && self@ == old(self)@.step(dt as int, inputs, serve@));
        }
        report
    }

    /// Advances the game by one frame of `dt` microseconds where it can, as
    /// `step_with` does, and leaves it as it is where the frame would raise
    /// a score that is at its limit.
    pub fn try_step_with(&mut self, dt: u32, inputs: Inputs, serve: Serve) -> (report: Option<
        StepReport,
    >)
        ensures
            report is Some <==> old(self)@.score_fits(dt as int),
            report matches Some(told) ==> told == old(self)@.report(dt as int) && final(self)@
                == old(self)@.step(dt as int, inputs, serve@),
            report is None ==> final(self)@ == old(self)@,
            final(self)@.valid(),
    {
        proof {
            use_type_invariant(&*self);
        }
        if self.can_step(dt) {
            Some(self.step_with(dt, inputs, serve))
        } else {
            None
        }
    }

    /// Advances the game by one frame of `dt` microseconds where it can, as
    /// `step` does, and leaves it as it is where the frame would raise a
    /// score that is at its limit.
    pub fn try_step(&mut self, dt: u32, inputs: Inputs) -> (report: Option<StepReport>)
        ensures
            report is Some <==> old(self)@.score_fits(dt as int),
            report matches Some(told) ==> told == old(self)@.report(dt as int) && exists|
                serve: ServeModel,
            | #[trigger]
                serve.in_range() && final(self)@ == old(self)@.step(dt as int, inputs, serve),
            report is None ==> final(self)@ == old(self)@,
            final(self)@.valid(),
    {
        proof {
            use_type_invariant(&*self);
        }
        if self.can_step(dt) {
            Some(self.step(dt, inputs))
        } else {
            None
        }
    }
}

} // verus!
