//! Plain two- and three-component vectors over fixed-point coordinates.

use vstd::prelude::*;

verus! {

use crate::fixed::{is_sqrt, isqrt};

/// Bound accepted for each coordinate of a well-formed vector, far beyond
/// any speed or extent the gameplay rules produce, and small enough that a
/// sum of three squared coordinates fits in 64 bits.
pub const COORD_LIMIT: i64 = 1_000_000_000;

/// A two-component vector of fixed-point coordinates.
#[derive(Clone, Copy, Debug, PartialEq, Eq, Structural)]
pub struct Vec2 {
    pub x: i64,
    pub y: i64,
}

/// A three-component vector of fixed-point coordinates.
#[derive(Clone, Copy, Debug, PartialEq, Eq, Structural)]
pub struct Vec3 {
    pub x: i64,
    pub y: i64,
    pub z: i64,
}

impl Vec2 {
    /// Every coordinate lies within `COORD_LIMIT`.
    pub open spec fn wf(self) -> bool {
        &&& -COORD_LIMIT <= self.x <= COORD_LIMIT
        &&& -COORD_LIMIT <= self.y <= COORD_LIMIT
    }
}

/// The sum of the squared coordinates of `v`.
pub open spec fn sum_of_squares(v: Vec3) -> int {
    v.x * v.x + v.y * v.y + v.z * v.z
}

impl Vec3 {
    /// Every coordinate lies within `COORD_LIMIT`.
    pub open spec fn wf(self) -> bool {
        &&& -COORD_LIMIT <= self.x <= COORD_LIMIT
        &&& -COORD_LIMIT <= self.y <= COORD_LIMIT
        &&& -COORD_LIMIT <= self.z <= COORD_LIMIT
    }

    /// The Euclidean length of the vector, rounded down to an integer.
    /// A vector of fixed-point coordinates yields its fixed-point length.
    pub fn magnitude(&self) -> (r: i64)
        requires
            self.wf(),
        ensures
            is_sqrt(sum_of_squares(*self), r as int),
            0 <= r <= 2_000_000_000,
    {
        proof {
            assert(0 <= self.x * self.x <= 1_000_000_000_000_000_000) by (nonlinear_arith)
                requires
                    -1_000_000_000 <= self.x <= 1_000_000_000,
            ;
            assert(0 <= self.y * self.y <= 1_000_000_000_000_000_000) by (nonlinear_arith)
                requires
                    -1_000_000_000 <= self.y <= 1_000_000_000,
            ;
            assert(0 <= self.z * self.z <= 1_000_000_000_000_000_000) by (nonlinear_arith)
                requires
                    -1_000_000_000 <= self.z <= 1_000_000_000,
            ;
        }
        let sq_x: i64 = self.x * self.x;
        let sq_y: i64 = self.y * self.y;
        let sq_z: i64 = self.z * self.z;
        let total: u64 = (sq_x as u64) + (sq_y as u64) + (sq_z as u64);
        let root: u64 = isqrt(total);
        proof {
            assert(root <= 2_000_000_000) by (nonlinear_arith)
                requires
                    (root as int) * (root as int) <= total as int,
                    total <= 3_000_000_000_000_000_000u64,
                    0 <= root,
            ;
        }
        root as i64
    }
}

} // verus!
