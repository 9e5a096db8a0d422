//! Verified simulation core for a two-player paddle-and-ball game.
//!
//! The library holds the per-frame game logic: paddle control with window
//! clamping, ball motion, axis-aligned box collision classification, goal
//! detection and scoring, the post-goal pause, the pre-start/playing state
//! machine, and the intro-text animation timeline.  All quantities are
//! fixed-point integers in thousandths of a world unit, with time measured
//! in milliseconds; the windowing host converts at the boundary.

pub mod collide;
pub mod game;
pub mod prestart;
pub mod scoreboard;
pub mod sim;
pub mod units;
