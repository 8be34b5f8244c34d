//! Points: when one is scored, and who gets it.

use crate::field::{FIELD_LEFT, FIELD_RIGHT};
use vstd::prelude::*;

verus! {

/// A scored point.
#[derive(Clone, Copy, Debug, PartialEq, Eq, Structural)]
pub enum ScoreEvent {
    /// The ball left the playfield on the right: the right player missed it,
    /// and the point goes to the left player.
    LeftScored,
    /// The ball left the playfield on the left: the left player missed it,
    /// and the point goes to the right player.
    RightScored,
}

/// The point that a ball at `ball_x` scores, if any: the ball's center has
/// reached the right or the left edge of the playfield.
pub open spec fn point_scored(ball_x: int) -> Option<ScoreEvent> {
    if ball_x >= FIELD_RIGHT {
        Some(ScoreEvent::LeftScored)
    } else if ball_x <= FIELD_LEFT {
        Some(ScoreEvent::RightScored)
    } else {
        None
    }
}

/// The left player's score after `event`.
pub open spec fn left_score_after(score: nat, event: Option<ScoreEvent>) -> nat {
    if event == Some(ScoreEvent::LeftScored) {
        score + 1
    } else {
        score
    }
}

/// The right player's score after `event`.
pub open spec fn right_score_after(score: nat, event: Option<ScoreEvent>) -> nat {
    if event == Some(ScoreEvent::RightScored) {
        score + 1
    } else {
        score
    }
}

/// Finds the point that a ball at `ball_x` scores, if any.
pub fn find_point(ball_x: i64) -> (event: Option<ScoreEvent>)
    ensures
        event == point_scored(ball_x as int),
{
    if ball_x >= FIELD_RIGHT {
        Some(ScoreEvent::LeftScored)
    } else if ball_x <= FIELD_LEFT {
        Some(ScoreEvent::RightScored)
    } else {
        None
    }
}

} // verus!
