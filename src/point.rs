//! Points and offsets in world space, in millimetres.
use vstd::prelude::*;

verus! {

/// A position in world space; each coordinate in millimetres.
/// `y` points up; the floor of the room lies at `y == 0`.
#[derive(Clone, Copy, Debug, PartialEq, Eq, Structural)]
pub struct Point {
    pub x: i32,
    pub y: i32,
    pub z: i32,
}

impl Point {
    pub open spec fn coord_sum_sq(dx: int, dy: int, dz: int) -> int {
        dx * dx + dy * dy + dz * dz
    }

    /// Squared distance between two points, in square millimetres.
    pub open spec fn dist_sq(self, other: Point) -> int {
        Self::coord_sum_sq(other.x - self.x, other.y - self.y, other.z - self.z)
    }

    pub fn new(x: i32, y: i32, z: i32) -> (r: Point)
        ensures
            r == (Point { x, y, z }),
    {
        Point { x, y, z }
    }

    /// The squared distance to `other`; it fits in an `i128` for any two points.
    pub fn distance_squared(&self, other: &Point) -> (r: i128)
        ensures
            r == self.dist_sq(*other),
    {
        let dx: i128 = other.x as i128 - self.x as i128;
        let dy: i128 = other.y as i128 - self.y as i128;
        let dz: i128 = other.z as i128 - self.z as i128;
        assert(dx * dx <= 0x1_0000_0000 * 0x1_0000_0000) by (nonlinear_arith)
            requires -0x1_0000_0000 <= dx <= 0x1_0000_0000;
        assert(dy * dy <= 0x1_0000_0000 * 0x1_0000_0000) by (nonlinear_arith)
            requires -0x1_0000_0000 <= dy <= 0x1_0000_0000;
        assert(dz * dz <= 0x1_0000_0000 * 0x1_0000_0000) by (nonlinear_arith)
            requires -0x1_0000_0000 <= dz <= 0x1_0000_0000;
        assert(0 <= dx * dx && 0 <= dy * dy && 0 <= dz * dz) by (nonlinear_arith);
        dx * dx + dy * dy + dz * dz
    }
}

} // verus!
