//! A terminal ping-pong game as a verified core: a paddle that follows the
//! player's keys, a ball that bounces off the borders of a rectangular arena,
//! and the fixed-tick loop that drives both.
//!
//! The crate holds no I/O. A front end polls the keyboard, measures the time
//! and draws; it hands what it saw to [`game::Game::step`] and performs the
//! [`game::Action`] that comes back.

pub mod point;
pub mod direction;
pub mod command;
pub mod ball;
mod chance;
pub mod player;
pub mod key;
pub mod frame;
pub mod game;
