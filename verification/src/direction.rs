//! A paddle's movement intent, derived from held keys: `Up`, `Down`, or `Na`
//! (no movement).  Pressing a direction key while the opposite key is held
//! cancels to `Na`; releasing a direction key always cancels to `Na`.

use vstd::prelude::*;

verus! {

/// A paddle's current commanded movement direction.
#[derive(Clone, Copy, PartialEq, Eq, Structural, Debug)]
pub enum Direction {
    Up,
    Down,
    Na,
}

impl Direction {
    /// The opposing direction; `Na` has none and is its own opposite.
    pub open spec fn opposite(self) -> Direction {
        match self {
            Direction::Up => Direction::Down,
            Direction::Down => Direction::Up,
            Direction::Na => Direction::Na,
        }
    }

    /// Intent that results from pressing the key for `pressed` while the
    /// current intent is `self`: opposing held keys cancel to `Na`,
    /// otherwise the pressed direction wins.
    pub open spec fn pressed(self, pressed: Direction) -> Direction {
        if self == pressed.opposite() {
            Direction::Na
        } else {
            pressed
        }
    }

    /// Combined effect of two held directions: two real directions cancel
    /// each other (even two equal ones), `Na` is neutral.
    pub open spec fn add_spec(self, rhs: Direction) -> Direction {
        if self == Direction::Na {
            rhs
        } else if rhs == Direction::Na {
            self
        } else {
            Direction::Na
        }
    }

    /// Combine two held directions into one intent.
    pub fn add(self, rhs: Direction) -> (r: Direction)
        ensures
            r == self.add_spec(rhs),
    {
        match (self, rhs) {
            (Direction::Up, Direction::Up) => Direction::Na,
            (Direction::Up, Direction::Down) => Direction::Na,
            (Direction::Down, Direction::Up) => Direction::Na,
            (Direction::Down, Direction::Down) => Direction::Na,
            (Direction::Up, Direction::Na) => Direction::Up,
            (Direction::Na, Direction::Up) => Direction::Up,
            (Direction::Down, Direction::Na) => Direction::Down,
            (Direction::Na, Direction::Down) => Direction::Down,
            (Direction::Na, Direction::Na) => Direction::Na,
        }
    }
}

} // verus!
