//! The screen state machine: which top-level mode the game is in, and which
//! entry of the start menu is highlighted.

use vstd::prelude::*;

verus! {

/// Top-level UI mode: the start menu or active play.
#[derive(Clone, Copy, PartialEq, Eq, Structural, Debug)]
pub enum CurrentScreen {
    StartMenu,
    InGame,
}

/// The highlighted entry of the start menu.  Meaningful only while the
/// screen is `StartMenu`; the selection is cleared (to `None`) only when
/// exit has been confirmed.
#[derive(Clone, Copy, PartialEq, Eq, Structural, Debug)]
pub enum CurrentSelection {
    NewGame,
    Exit,
}

/// Selection after one directional key press in the menu: the two entries
/// flip, and a cleared selection stays cleared.
pub open spec fn toggled(sel: Option<CurrentSelection>) -> Option<CurrentSelection> {
    match sel {
        Some(CurrentSelection::NewGame) => Some(CurrentSelection::Exit),
        Some(CurrentSelection::Exit) => Some(CurrentSelection::NewGame),
        None => None,
    }
}

} // verus!
