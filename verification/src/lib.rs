//! The simulation core of a two-paddle ball game.
//!
//! The crate advances the game by one frame at a time: it ramps the speeds,
//! moves the ball, resolves collisions with the walls and the paddles, moves
//! the paddles, and detects a scored point. Everything is computed in fixed
//! point on integers, and every function carries a contract that is proved
//! against the mathematical model in [`game::GameModel`].

pub mod ball;
mod chance;
pub mod clamp;
pub mod field;
pub mod frame;
pub mod game;
pub mod laws;
pub mod paddle;
pub mod score;
pub mod serve;
pub mod sign;
pub mod speed;

pub use game::{GameModel, GameState, Inputs, StepReport};
pub use score::ScoreEvent;
pub use serve::{Serve, ServeModel};
pub use sign::{Side, Sign};
