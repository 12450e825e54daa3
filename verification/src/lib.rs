//! Core state of a terminal wizard for assembling game-mod configuration:
//! a selectable list with wraparound cursor, toggleable options, text-field
//! state, and the focus/mode state machine that dispatches key events.
//!
//! Rendering and terminal I/O live outside this crate; everything here is
//! plain data and transition logic, verified against its contracts.

pub mod app;
pub mod input;
pub mod state;
pub mod util;
