//! Fixed-point scale and the numeric limits and defaults of the simulation.

use vstd::prelude::*;

verus! {

/// Subunits per world unit: all positions, velocities and sizes are stored
/// as `i64` counts of `1/UNIT` of a world unit.
pub const UNIT: i64 = 1000;

/// Largest magnitude, in subunits, that a body coordinate or a configured
/// length may have on entry to a tick. Keeps every intermediate product of
/// the pipeline inside `i64`.
pub const COORD_LIMIT: i64 = 1_000_000_000_000;

/// Largest restitution factor, in `1/UNIT` steps (so `UNIT` means a factor
/// of one). Bounds the product taken during collision response.
pub const RESTITUTION_LIMIT: i64 = 1_000_000;

/// Default downward acceleration per tick: 0.2 world units.
pub const DEFAULT_GRAVITY: i64 = 200;

/// Default ball half-extent used as the boundary offset: 15 world units.
pub const DEFAULT_BALL_RADIUS: i64 = 15_000;

/// Default restitution factor: 1.90 times `UNIT`, an additive correction of
/// `-1.90 * v` on contact, so the reflected speed is 0.9 times the old one.
pub const DEFAULT_RESTITUTION: i64 = 1900;

/// Default viewport width: 800 world units.
pub const DEFAULT_VIEWPORT_WIDTH: i64 = 800_000;

/// Default viewport height: 600 world units.
pub const DEFAULT_VIEWPORT_HEIGHT: i64 = 600_000;

/// Default tick duration in nanoseconds: one sixtieth of a second, rounded
/// to the nearest nanosecond.
pub const DEFAULT_TICK_NANOS: u64 = 16_666_667;

} // verus!
