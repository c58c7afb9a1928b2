//! The simulation's configuration: per-tick gravity, ball half-extent,
//! restitution factor and tick duration, with their documented defaults.

use vstd::prelude::*;

use crate::units::{
    COORD_LIMIT, DEFAULT_BALL_RADIUS, DEFAULT_GRAVITY, DEFAULT_RESTITUTION, DEFAULT_TICK_NANOS,
    RESTITUTION_LIMIT,
};

verus! {

/// The constants of one simulation run. All lengths and speeds are in
/// subunits; `restitution` is in `1/UNIT` steps of the factor applied as an
/// additive correction on contact.
#[derive(Clone, Copy, Debug, PartialEq, Eq, Structural)]
pub struct SimConfig {
    /// Downward velocity gained per tick by every gravity-enabled body.
    pub gravity: i64,
    /// Ball half-extent; offsets the bottom boundary above the window edge.
    pub ball_radius: i64,
    /// Restitution factor times `UNIT`: on contact the velocity receives
    /// `-(restitution/UNIT) * v`, so `1900` reflects with 0.9 of the speed.
    pub restitution: i64,
    /// Length of one tick in nanoseconds.
    pub tick_nanos: u64,
}

impl SimConfig {
    /// Whether every constant is non-negative and small enough that a tick
    /// cannot overflow.
    pub open spec fn wf(&self) -> bool {
        &&& 0 <= self.gravity <= COORD_LIMIT
        &&& 0 <= self.ball_radius <= COORD_LIMIT
        &&& 0 <= self.restitution <= RESTITUTION_LIMIT
        &&& self.tick_nanos >= 1
    }

    /// Builds a configuration from the four constants.
    pub fn new(gravity: i64, ball_radius: i64, restitution: i64, tick_nanos: u64) -> (c: SimConfig)
        requires
            0 <= gravity <= COORD_LIMIT,
            0 <= ball_radius <= COORD_LIMIT,
            0 <= restitution <= RESTITUTION_LIMIT,
            tick_nanos >= 1,
        ensures
            c.gravity == gravity,
            c.ball_radius == ball_radius,
            c.restitution == restitution,
            c.tick_nanos == tick_nanos,
            c.wf(),
    {
        SimConfig { gravity, ball_radius, restitution, tick_nanos }
    }
}

impl Default for SimConfig {
    /// The documented defaults: gravity 0.2 per tick, radius 15, factor
    /// 1.90, sixty ticks per second.
    fn default() -> (c: SimConfig)
        ensures
            c.gravity == DEFAULT_GRAVITY,
            c.ball_radius == DEFAULT_BALL_RADIUS,
            c.restitution == DEFAULT_RESTITUTION,
            c.tick_nanos == DEFAULT_TICK_NANOS,
            c.wf(),
    {
        SimConfig {
            gravity: DEFAULT_GRAVITY,
            ball_radius: DEFAULT_BALL_RADIUS,
            restitution: DEFAULT_RESTITUTION,
            tick_nanos: DEFAULT_TICK_NANOS,
        }
    }
}

} // verus!
