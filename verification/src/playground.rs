//! The play field and the ball.  Positions are in whole playground units:
//! every entity starts on the grid and moves one unit per axis per tick, so
//! integer coordinates describe the motion exactly.

use vstd::prelude::*;

verus! {

/// The fixed rectangular bounds of the play field.
#[derive(Clone, Copy, PartialEq, Eq, Structural, Debug)]
pub struct Playground {
    pub left: i64,
    pub top: i64,
    pub right: i64,
    pub bottom: i64,
}

/// The ball: a circle with a center position and a radius.
#[derive(Clone, Copy, PartialEq, Eq, Structural, Debug)]
pub struct Ball {
    pub x: i64,
    pub y: i64,
    pub radius: i64,
}

} // verus!
