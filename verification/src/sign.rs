//! Headings along one axis, and the two sides of the playfield.

use vstd::prelude::*;

verus! {

/// The heading of the ball along one axis: toward smaller or toward larger
/// coordinates. A heading is never zero.
#[derive(Clone, Copy, Debug, PartialEq, Eq, Structural)]
pub enum Sign {
    Negative,
    Positive,
}

impl Sign {
    /// The heading as a number: `-1` or `1`.
    pub open spec fn value(self) -> int {
        match self {
            Sign::Negative => -1,
            Sign::Positive => 1,
        }
    }

    /// The opposite heading.
    pub open spec fn opposite(self) -> Sign {
        match self {
            Sign::Negative => Sign::Positive,
            Sign::Positive => Sign::Negative,
        }
    }

    /// Returns the heading as a number: `-1` or `1`.
    pub fn signum(self) -> (n: i64)
        ensures
            n == self.value(),
    {
        match self {
            Sign::Negative => -1,
            Sign::Positive => 1,
        }
    }

    /// Returns the opposite heading.
    pub fn flipped(self) -> (turned: Sign)
        ensures
            turned == self.opposite(),
    {
        match self {
            Sign::Negative => Sign::Positive,
            Sign::Positive => Sign::Negative,
        }
    }

    /// Returns `Positive` for `true` and `Negative` for `false`.
    pub fn from_bool(positive: bool) -> (sign: Sign)
        ensures
            sign == (if positive { Sign::Positive } else { Sign::Negative }),
    {
        if positive {
            Sign::Positive
        } else {
            Sign::Negative
        }
    }
}

/// A side of the playfield, and the paddle that guards it.
#[derive(Clone, Copy, Debug, PartialEq, Eq, Structural)]
pub enum Side {
    Left,
    Right,
}

} // verus!
