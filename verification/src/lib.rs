//! Core of a two-player terminal Pong game: the menu state machine, the
//! key-driven paddle intent model, and the fixed-tick physics that moves the
//! ball, resolves collisions, and tracks lives.  Rendering and raw input
//! polling live outside this crate; the core consumes decoded key events and
//! exposes a read-only snapshot of the game state.

pub mod app;
pub mod constants;
pub mod direction;
pub mod input;
pub mod laws;
pub mod menu;
pub mod player;
pub mod playground;
