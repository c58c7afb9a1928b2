//! Three-component fixed-point vectors and their mathematical model.

use vstd::prelude::*;

verus! {

/// Mathematical model of a vector: three unbounded integers.
pub ghost struct V3 {
    pub x: int,
    pub y: int,
    pub z: int,
}

/// A three-component vector of fixed-point subunit counts.
#[derive(Clone, Copy, Debug, PartialEq, Eq, Structural)]
pub struct Vec3 {
    pub x: i64,
    pub y: i64,
    pub z: i64,
}

impl View for Vec3 {
    type V = V3;

    open spec fn view(&self) -> V3 {
        V3 { x: self.x as int, y: self.y as int, z: self.z as int }
    }
}

impl Vec3 {
    /// Builds the vector with the given components.
    pub fn new(x: i64, y: i64, z: i64) -> (v: Vec3)
        ensures
            v@ == (V3 { x: x as int, y: y as int, z: z as int }),
    {
        Vec3 { x, y, z }
    }

    /// The zero vector: the velocity every body starts with.
    pub fn zero() -> (v: Vec3)
        ensures
            v@ == (V3 { x: 0, y: 0, z: 0 }),
    {
        Vec3 { x: 0, y: 0, z: 0 }
    }
}

} // verus!
