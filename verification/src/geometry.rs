//! Fixed-point geometry primitives.
//!
//! All coordinates in this library are integers in milli-units: the value
//! 1000 stands for one unit of world space. This keeps every computation
//! exact and lets the mesh and lighting logic be verified end to end.

use vstd::prelude::*;

verus! {

/// Number of fixed-point steps per world unit.
pub const MILLI: i64 = 1000;

/// Largest magnitude allowed for a shape parameter coordinate.
/// Derived points stay within twice this bound, and cross products of
/// edge vectors of such points still fit in `i64`.
pub const PARAM_BOUND: i64 = 500_000_000;

/// Largest magnitude allowed for a vertex coordinate handed to the
/// normal computation (a parameter plus an offset).
pub const COORD_BOUND: i64 = 1_000_000_000;

/// A 3-vector in fixed-point milli-units.
#[derive(Clone, Copy, PartialEq, Eq, Structural, Debug)]
pub struct Vec3i {
    pub x: i64,
    pub y: i64,
    pub z: i64,
}

/// An RGBA color in fixed-point milli-units (1000 = full channel).
#[derive(Clone, Copy, PartialEq, Eq, Structural, Debug)]
pub struct Col4i {
    pub r: i64,
    pub g: i64,
    pub b: i64,
    pub a: i64,
}

/// Magnitude bound on every component of a vector.
pub open spec fn vec3_bounded(v: Vec3i, bound: int) -> bool {
    &&& -bound <= v.x <= bound
    &&& -bound <= v.y <= bound
    &&& -bound <= v.z <= bound
}

impl Vec3i {
    pub fn new(x: i64, y: i64, z: i64) -> (r: Vec3i)
        ensures
            r == (Vec3i { x, y, z }),
    {
        Vec3i { x, y, z }
    }

    /// Componentwise difference.
    pub fn sub(self, other: Vec3i) -> (r: Vec3i)
        requires
            i64::MIN <= self.x - other.x <= i64::MAX,
            i64::MIN <= self.y - other.y <= i64::MAX,
            i64::MIN <= self.z - other.z <= i64::MAX,
        ensures
            r == (Vec3i { x: (self.x - other.x) as i64, y: (self.y - other.y) as i64, z: (self.z - other.z) as i64 }),
    {
        Vec3i { x: self.x - other.x, y: self.y - other.y, z: self.z - other.z }
    }
}

/// Squared Euclidean length, exact over the integers.
pub open spec fn norm_sq(v: Vec3i) -> int {
    v.x * v.x + v.y * v.y + v.z * v.z
}

} // verus!
