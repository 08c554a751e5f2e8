//! Units and machine limits shared by the whole crate.
//!
//! Geometry is held in milli-pixels (one pixel is `MILLI` coordinate
//! steps), velocities in pixels per second and elapsed time in
//! milliseconds.  A velocity `v` held for `dt` milliseconds therefore
//! moves a coordinate by exactly `v * dt` milli-pixels, and gravity of
//! 1000 pixels per second per second adds exactly `dt` pixels per second
//! of velocity over `dt` milliseconds: every formula below is exact.

use vstd::prelude::*;

verus! {

/// Milli-pixels per pixel: the resolution of the coordinate grid.
pub const MILLI: i64 = 1000;

/// Largest coordinate (in milli-pixels) the crate works with.
pub const COORD_LIMIT: i64 = 1_000_000_000;

/// Largest frame time (in milliseconds) an update accepts.
pub const DT_LIMIT: i64 = 100_000;

/// Largest travelled distance (in milli-pixels) a session may carry
/// into an update without risking overflow.
pub const DIST_LIMIT: i64 = 1_000_000_000_000_000_000;

/// Largest viewport side (in pixels) an update accepts; `COORD_LIMIT`
/// milli-pixels.
pub const VIEW_LIMIT: i64 = 1_000_000;

/// The viewports on which obstacle spawning is well defined: both random
/// size ranges must be non-empty.  Width and height are in pixels.
pub open spec fn viewport_ok(w: int, h: int) -> bool {
    550 < w <= VIEW_LIMIT && 400 < h <= VIEW_LIMIT
}

/// Exec mirror of [`viewport_ok`], for callers that must guard a live
/// window size before entering the game logic.
pub fn viewport_is_ok(w: i64, h: i64) -> (r: bool)
    ensures
        r == viewport_ok(w as int, h as int),
{
    550 < w && w <= VIEW_LIMIT && 400 < h && h <= VIEW_LIMIT
}

} // verus!
