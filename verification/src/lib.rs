//! A minimal side-scrolling obstacle-avoidance game: a player falls under
//! gravity, flaps to gain upward speed, and must pass through gaps in
//! scrolling vertical obstacles. This crate holds the whole simulation —
//! mode state machine, player physics, obstacle stream, collision, scoring
//! and render-command production — with contracts proved by Verus. Drawing
//! to a terminal and reading the keyboard are left to the caller.
use vstd::prelude::*;

pub mod obstacle;
pub mod player;
pub mod render;
pub mod rng;
pub mod session;
pub mod text;

verus! {

/// Width of the visible play field, in columns.
pub const SCREEN_WIDTH: i32 = 80;

/// Height of the visible play field, in rows.
pub const SCREEN_HEIGHT: i32 = 50;

/// Length of one simulated physics step, in microseconds.
pub const FRAME_DURATION_MICROS: u64 = 75000;

} // verus!
