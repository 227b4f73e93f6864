//! The fixed geometry and rules of the game: playground bounds, paddle and
//! ball dimensions, starting positions, and the starting number of lives.

use vstd::prelude::*;

verus! {

/// Left edge of the play field.
pub const PLAYGROUND_LEFT: i64 = 0;
/// Top edge of the play field.
pub const PLAYGROUND_TOP: i64 = 0;
/// Right edge of the play field.
pub const PLAYGROUND_RIGHT: i64 = 200;
/// Bottom edge of the play field.
pub const PLAYGROUND_BOTTOM: i64 = 100;

/// Horizontal thickness of a paddle.
pub const PADDLE_WIDTH: i64 = 3;
/// Vertical extent of a paddle.
pub const PADDLE_HEIGHT: i64 = 20;
/// Vertical position both paddles start at.
pub const PADDLE_START_Y: i64 = 10;
/// Fixed horizontal position of player 1's paddle.
pub const P1_PADDLE_X: i64 = 10;
/// Fixed horizontal position of player 2's paddle.
pub const P2_PADDLE_X: i64 = 190;
/// Units a paddle moves per tick while a direction is held.
pub const PADDLE_SPEED: i64 = 1;

/// Radius of the ball.
pub const BALL_RADIUS: i64 = 5;
/// Horizontal position the ball starts at.
pub const BALL_START_X: i64 = 10;
/// Vertical position the ball starts at.
pub const BALL_START_Y: i64 = 10;

/// Number of lives each player starts with.
pub const STARTING_LIFES: u64 = 3;

/// Bound on ball coordinates under which a tick's arithmetic cannot
/// overflow an `i64`.  The ball only ever moves one unit per axis per tick,
/// so this is far beyond anything a session can reach.
pub const COORD_LIMIT: i64 = 0x4000_0000_0000_0000;

} // verus!
