//! Logical input events the core consumes.  The outer loop decodes raw
//! terminal events into these; anything the game does not react to maps to
//! `KeyCode::Other`, which every handler treats as a no-op.

use vstd::prelude::*;

verus! {

/// The keys the game reacts to.  Player 1 steers with `W`/`S`, player 2
/// with the arrow keys; `Enter` confirms a menu selection and `Q` quits.
#[derive(Clone, Copy, PartialEq, Eq, Structural, Debug)]
pub enum KeyCode {
    Up,
    Down,
    CharW,
    CharS,
    CharQ,
    Enter,
    Other,
}

impl KeyCode {
    /// Whether this key is one of the four directional keys.
    pub open spec fn is_directional(self) -> bool {
        self == KeyCode::Up || self == KeyCode::Down || self == KeyCode::CharW
            || self == KeyCode::CharS
    }
}

/// A decoded key event: a key going down or coming back up.
#[derive(Clone, Copy, PartialEq, Eq, Structural, Debug)]
pub enum InputEvent {
    Press(KeyCode),
    Release(KeyCode),
}

} // verus!
