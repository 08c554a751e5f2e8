//! The crate's one window onto the process-wide pseudo-random generator.

use vstd::prelude::*;

verus! {

/// Largest exclusive bound accepted by [`rand_in`].
pub const RAND_BOUND: u32 = 2_000_000;

/// Relies on macroquad::rand::gen_range (quad-rand): for unsigned bounds
/// it computes `low + (high - low) * u` in f64, with `u = rand() / 2^32`
/// in `[0, 1)`, then truncates.  With `high` below 2^21 every
/// intermediate value is an exact multiple of 2^-32 below 2^53, so the
/// f64 arithmetic is exact and the result lies in `[low, high)`.
/// Nothing is claimed about its distribution.
#[verifier::external_body]
pub(crate) fn rand_in(low: u32, high: u32) -> (r: u32)
    requires
        low < high,
        high <= RAND_BOUND,
    ensures
        low <= r < high,
{
    macroquad::rand::gen_range(low, high)
}

} // verus!
