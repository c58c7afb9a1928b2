//! The simulated point-mass: position, velocity, and the gravity capability
//! flag that opts a body into the per-tick acceleration.

use vstd::prelude::*;

use crate::units::COORD_LIMIT;
use crate::vec3::{V3, Vec3};

verus! {

/// Mathematical model of a body: unbounded-integer vectors plus the flag.
pub ghost struct BodyModel {
    pub position: V3,
    pub velocity: V3,
    pub gravity_enabled: bool,
}

/// Whether every coordinate of the model lies within `COORD_LIMIT`. The
/// tick pipeline asks this of its inputs so that no intermediate value of a
/// phase can leave `i64`.
pub open spec fn body_in_range(b: BodyModel) -> bool {
    &&& -COORD_LIMIT <= b.position.x <= COORD_LIMIT
    &&& -COORD_LIMIT <= b.position.y <= COORD_LIMIT
    &&& -COORD_LIMIT <= b.position.z <= COORD_LIMIT
    &&& -COORD_LIMIT <= b.velocity.x <= COORD_LIMIT
    &&& -COORD_LIMIT <= b.velocity.y <= COORD_LIMIT
    &&& -COORD_LIMIT <= b.velocity.z <= COORD_LIMIT
}

/// A simulated body. Bodies with `gravity_enabled` receive the downward
/// acceleration each tick; every body is integrated and collision-checked.
#[derive(Clone, Copy, Debug, PartialEq, Eq, Structural)]
pub struct Body {
    pub position: Vec3,
    pub velocity: Vec3,
    pub gravity_enabled: bool,
}

impl View for Body {
    type V = BodyModel;

    open spec fn view(&self) -> BodyModel {
        BodyModel {
            position: self.position@,
            velocity: self.velocity@,
            gravity_enabled: self.gravity_enabled,
        }
    }
}

impl Body {
    /// Whether the body's coordinates are small enough for a tick.
    pub open spec fn in_range(&self) -> bool {
        body_in_range(self@)
    }

    /// Builds a gravity-enabled body at rest at the given start position.
    pub fn new(position: Vec3) -> (b: Body)
        ensures
            b@.position == position@,
            b@.velocity == (V3 { x: 0, y: 0, z: 0 }),
            b@.gravity_enabled,
    {
        Body { position, velocity: Vec3::zero(), gravity_enabled: true }
    }

    /// Builds a body at rest that does not take gravity: integrated and
    /// collision-checked like any other, but its velocity is never
    /// accelerated by a tick.
    pub fn new_kinematic(position: Vec3) -> (b: Body)
        ensures
            b@.position == position@,
            b@.velocity == (V3 { x: 0, y: 0, z: 0 }),
            !b@.gravity_enabled,
    {
        Body { position, velocity: Vec3::zero(), gravity_enabled: false }
    }
}

} // verus!
