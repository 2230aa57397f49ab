//! Fixed-point scalars and vectors.
//!
//! A scalar is an `i64` measured in thousandths of a unit: the value `1500`
//! stands for 1.5.  `FIX_ONE` is one unit.  All geometric data handled by the
//! renderer core is bounded by `COORD_LIMIT`, which keeps every product that
//! the core forms inside `i64`/`i128` range.

use vstd::prelude::*;

verus! {

/// One unit, in thousandths.
pub const FIX_ONE: i64 = 1000;

/// Magnitude bound on coordinates and radiance components (one million units).
pub const COORD_LIMIT: i64 = 1_000_000_000;

/// A scalar is within the range the renderer core works on.
pub open spec fn in_range(x: int) -> bool {
    -COORD_LIMIT <= x <= COORD_LIMIT
}

/// A direction or point in three-dimensional space, in thousandths of a unit.
#[derive(Clone, Copy, Debug, PartialEq, Eq, Structural)]
pub struct Vec3 {
    pub x: i64,
    pub y: i64,
    pub z: i64,
}

/// A point in two-dimensional space, in thousandths of a unit.
#[derive(Clone, Copy, Debug, PartialEq, Eq, Structural)]
pub struct Vec2 {
    pub x: i64,
    pub y: i64,
}

impl Vec3 {
    /// Every component is within `COORD_LIMIT`.
    pub open spec fn bounded(self) -> bool {
        in_range(self.x as int) && in_range(self.y as int) && in_range(self.z as int)
    }

    /// Componentwise sum.
    pub fn add(self, other: Vec3) -> (r: Vec3)
        requires
            self.bounded(),
            other.bounded(),
        ensures
            r.x == self.x + other.x,
            r.y == self.y + other.y,
            r.z == self.z + other.z,
    {
        Vec3 { x: self.x + other.x, y: self.y + other.y, z: self.z + other.z }
    }

    /// The vector with the z component negated: the mirror image of `self`
    /// about the plane whose normal is the local z axis.
    pub fn reflect_z(self) -> (r: Vec3)
        requires
            self.bounded(),
        ensures
            r.x == self.x,
            r.y == self.y,
            r.z == -self.z,
    {
        Vec3 { x: self.x, y: self.y, z: -self.z }
    }
}

} // verus!
