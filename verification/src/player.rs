//! A player: a paddle on a fixed vertical rail, a life counter, and the
//! current movement intent for the paddle.

use vstd::prelude::*;
use crate::constants::{
    PADDLE_HEIGHT, PADDLE_SPEED, PADDLE_START_Y, PADDLE_WIDTH, PLAYGROUND_BOTTOM, STARTING_LIFES,
};
use crate::direction::Direction;

verus! {

/// A paddle's rectangle.  `x` is fixed per side for the whole session;
/// only `y` changes, clamped to the play field.
#[derive(Clone, Copy, PartialEq, Eq, Structural, Debug)]
pub struct Paddle {
    pub x: i64,
    pub y: i64,
    pub width: i64,
    pub height: i64,
}

/// One of the two players.
#[derive(Clone, Copy, PartialEq, Eq, Structural, Debug)]
pub struct Player {
    pub paddle: Paddle,
    pub lifes: u64,
    pub starting_lifes: u64,
    pub direction: Direction,
}

/// Paddle height `y` after one tick of moving in `dir`: one unit up or
/// down, clamped to `[0, PLAYGROUND_BOTTOM - PADDLE_HEIGHT]`.
pub open spec fn stepped_y(y: int, dir: Direction) -> int {
    match dir {
        Direction::Up => if y + PADDLE_SPEED <= PLAYGROUND_BOTTOM - PADDLE_HEIGHT {
            y + PADDLE_SPEED
        } else {
            PLAYGROUND_BOTTOM - PADDLE_HEIGHT as int
        },
        Direction::Down => if y - PADDLE_SPEED >= 0 {
            y - PADDLE_SPEED
        } else {
            0
        },
        Direction::Na => y,
    }
}

impl Player {
    /// Structural validity of a player: standard paddle dimensions, the
    /// paddle inside the play field, and no more lives than it started
    /// with.
    pub open spec fn wf(self) -> bool {
        &&& self.paddle.width == PADDLE_WIDTH
        &&& self.paddle.height == PADDLE_HEIGHT
        &&& 0 <= self.paddle.y <= PLAYGROUND_BOTTOM - PADDLE_HEIGHT
        &&& self.starting_lifes == STARTING_LIFES
        &&& self.lifes <= self.starting_lifes
    }

    /// A fresh player: full lives, no movement intent, paddle at the
    /// starting height on the rail at `x`.
    pub fn new(x: i64) -> (p: Player)
        ensures
            p == (Player {
                paddle: Paddle {
                    x,
                    y: PADDLE_START_Y,
                    width: PADDLE_WIDTH,
                    height: PADDLE_HEIGHT,
                },
                lifes: STARTING_LIFES,
                starting_lifes: STARTING_LIFES,
                direction: Direction::Na,
            }),
            p.wf(),
    {
        Player {
            lifes: STARTING_LIFES,
            starting_lifes: STARTING_LIFES,
            direction: Direction::Na,
            paddle: Paddle { x, y: PADDLE_START_Y, width: PADDLE_WIDTH, height: PADDLE_HEIGHT },
        }
    }

    /// Move the paddle one tick in its current direction, clamped to the
    /// play field.  Nothing but the paddle's height changes.
    pub fn apply_direction(&mut self)
        requires
            old(self).wf(),
        ensures
            *final(self) == (Player {
                paddle: Paddle {
                    y: stepped_y(old(self).paddle.y as int, old(self).direction) as i64,
                    ..old(self).paddle
                },
                ..*old(self)
            }),
            final(self).wf(),
    {
        match self.direction {
            Direction::Up => {
                if self.paddle.y + PADDLE_SPEED <= PLAYGROUND_BOTTOM - self.paddle.height {
                    self.paddle.y = self.paddle.y + PADDLE_SPEED;
                } else {
                    self.paddle.y = PLAYGROUND_BOTTOM - self.paddle.height;
                }
            },
            Direction::Down => {
                if self.paddle.y - PADDLE_SPEED >= 0 {
                    self.paddle.y = self.paddle.y - PADDLE_SPEED;
                } else {
                    self.paddle.y = 0;
                }
            },
            Direction::Na => {},
        }
    }
}

} // verus!
