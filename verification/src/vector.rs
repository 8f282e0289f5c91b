//! The two-dimensional vector used for positions, velocities, accelerations
//! and impulses alike.

use vstd::prelude::*;

verus! {

/// A pair of fixed-point scalars. What it measures is decided by where it is
/// used; the type itself carries no invariant.
#[derive(Clone, Copy, Debug, PartialEq, Eq, Structural)]
pub struct Vector2 {
    pub x: i64,
    pub y: i64,
}

impl Vector2 {
    /// The vector with both components zero.
    pub open spec fn zero() -> Vector2 {
        Vector2 { x: 0, y: 0 }
    }

    /// Builds a vector from its components.
    pub fn new(x: i64, y: i64) -> (v: Vector2)
        ensures
            v == (Vector2 { x, y }),
    {
        Vector2 { x, y }
    }
}

} // verus!
