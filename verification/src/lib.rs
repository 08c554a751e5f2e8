//! A small side-scrolling obstacle-avoidance game, verified.
//!
//! A player-controlled body falls under gravity and jumps over obstacles
//! that enter from the right edge of the viewport and march left.  The
//! game is a finite state machine (idle, playing, failed) driven once per
//! frame by [`game::GameState::update`].
//!
//! All geometry lives on an integer grid: positions and sizes are held in
//! milli-pixels, velocities in pixels per second, elapsed time in
//! milliseconds.  With those units every per-frame formula of the game is
//! exact integer arithmetic, so the contracts pin each update down to the
//! value.  Only the random sizing of obstacles goes through an outside
//! generator, behind a trusted wrapper that bounds its result.

pub mod body;
pub mod collision;
pub mod game;
pub mod obstacle;
mod rng;
pub mod textfmt;
pub mod units;
