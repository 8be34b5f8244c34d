//! The serve: where the ball is put, and which way it is sent, after a
//! point.

use crate::chance::{chance, thread_generator, uniform_between};
use crate::field::{SERVE_SPREAD_X, SERVE_SPREAD_Y};
use crate::sign::Sign;
use vstd::prelude::*;

verus! {

/// A serve, as the contracts see it.
pub struct ServeModel {
    pub x: int,
    pub y: int,
    pub dir_x: Sign,
    pub dir_y: Sign,
}

impl ServeModel {
    /// Whether the ball is served from within the serving area around the
    /// origin.
    pub open spec fn in_range(self) -> bool {
        &&& -SERVE_SPREAD_X <= self.x <= SERVE_SPREAD_X
        &&& -SERVE_SPREAD_Y <= self.y <= SERVE_SPREAD_Y
    }
}

/// A serve. Every value of this type is a serve from within the serving
/// area.
#[derive(Clone, Copy, Debug, PartialEq, Eq)]
pub struct Serve {
    x: i64,
    y: i64,
    dir_x: Sign,
    dir_y: Sign,
}

impl View for Serve {
    type V = ServeModel;

    closed spec fn view(&self) -> ServeModel {
        ServeModel { x: self.x as int, y: self.y as int, dir_x: self.dir_x, dir_y: self.dir_y }
    }
}

impl Serve {
    #[verifier::type_invariant]
    spec fn well_formed(self) -> bool {
        self@.in_range()
    }

    /// Returns the serve from `(x, y)` with the given headings, or `None` if
    /// `(x, y)` lies outside the serving area.
    pub fn new(x: i64, y: i64, dir_x: Sign, dir_y: Sign) -> (serve: Option<Serve>)
        ensures
            serve is Some <==> (ServeModel { x: x as int, y: y as int, dir_x, dir_y }).in_range(),
            serve matches Some(s) ==> s@ == (ServeModel { x: x as int, y: y as int, dir_x, dir_y }),
    {
        if -SERVE_SPREAD_X <= x && x <= SERVE_SPREAD_X && -SERVE_SPREAD_Y <= y && y
            <= SERVE_SPREAD_Y {
            Some(Serve { x, y, dir_x, dir_y })
        } else {
            None
        }
    }

    /// Returns the serve from the origin, up and to the right: the one that
    /// opens a game.
    pub fn opening() -> (serve: Serve)
        ensures
            serve@ == (ServeModel { x: 0, y: 0, dir_x: Sign::Positive, dir_y: Sign::Positive }),
    {
        Serve { x: 0, y: 0, dir_x: Sign::Positive, dir_y: Sign::Positive }
    }

    /// Draws a serve at random: a position from the serving area, each
    /// coordinate on its own, and each heading by the toss of a coin.
    pub fn random() -> (serve: Serve)
        ensures
            serve@.in_range(),
    {
        let mut rng = thread_generator();
        let x: i64 = uniform_between(&mut rng, -SERVE_SPREAD_X, SERVE_SPREAD_X);
        let y: i64 = uniform_between(&mut rng, -SERVE_SPREAD_Y, SERVE_SPREAD_Y);
        let dir_x = Sign::from_bool(chance(&mut rng, 1, 2));
        let dir_y = Sign::from_bool(chance(&mut rng, 1, 2));
        Serve::new(x, y, dir_x, dir_y).unwrap()
    }

    /// Horizontal position from which the ball is served.
    pub fn x(&self) -> (x: i64)
        ensures
            x == self@.x,
            -SERVE_SPREAD_X <= x <= SERVE_SPREAD_X,
    {
        proof {
            use_type_invariant(self);
        }
        self.x
    }

    /// Vertical position from which the ball is served.
    pub fn y(&self) -> (y: i64)
        ensures
            y == self@.y,
            -SERVE_SPREAD_Y <= y <= SERVE_SPREAD_Y,
    {
        proof {
            use_type_invariant(self);
        }
        self.y
    }

    /// Horizontal heading on which the ball is sent.
    pub fn dir_x(&self) -> (dir: Sign)
        ensures
            dir == self@.dir_x,
    {
        self.dir_x
    }

    /// Vertical heading on which the ball is sent.
    pub fn dir_y(&self) -> (dir: Sign)
        ensures
            dir == self@.dir_y,
    {
        self.dir_y
    }
}

} // verus!
