//! Core of a motion-controlled ball game: a ball moves over a bounded
//! play-field under two tilt control signals and must touch four fixed goal
//! regions; the game counts elapsed ticks as the score and keeps the lowest
//! score over completed rounds.
//!
//! The crate holds the deterministic game logic only. Reading a motion
//! sensor, rendering, and timing belong to the surrounding program, which
//! feeds one pair of tilt signals per tick into [`smallball::State::update`]
//! and reads the state back through the query methods.

pub mod config;
pub mod math;
pub mod smallball;
