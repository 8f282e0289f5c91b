//! Axis-aligned bounding boxes and their overlap test.

use vstd::prelude::*;
use crate::vector::Vector2;

verus! {

/// A box with its top-left corner at (`x`, `y`).
#[derive(Clone, Copy, Debug, PartialEq, Eq, Structural)]
pub struct BoundingBox {
    pub x: i64,
    pub y: i64,
    pub width: i64,
    pub height: i64,
}

impl BoundingBox {
    /// Whether the interiors of the two boxes share a point: they overlap on
    /// both axes. Boxes that only touch along an edge do not overlap.
    pub open spec fn overlaps(self, other: BoundingBox) -> bool {
        &&& self.x < other.x + other.width
        &&& self.x + self.width > other.x
        &&& self.y < other.y + other.height
        &&& self.y + self.height > other.y
    }

    /// The box of the given size whose top-left corner is `location`.
    pub open spec fn at(location: Vector2, width: i64, height: i64) -> BoundingBox {
        BoundingBox { x: location.x, y: location.y, width, height }
    }

    /// The box of the given size whose top-left corner is `location`.
    pub fn new(location: Vector2, width: i64, height: i64) -> (b: BoundingBox)
        ensures
            b == BoundingBox::at(location, width, height),
    {
        BoundingBox { x: location.x, y: location.y, width, height }
    }

    /// The overlap test, computed without overflow for any pair of boxes.
    pub fn is_overlapping(&self, other: &BoundingBox) -> (hit: bool)
        ensures
            hit == self.overlaps(*other),
    {
        (self.x as i128) < other.x as i128 + other.width as i128
            && self.x as i128 + self.width as i128 > other.x as i128
            && (self.y as i128) < other.y as i128 + other.height as i128
            && self.y as i128 + self.height as i128 > other.y as i128
    }
}

/// Overlap is symmetric: either box may be the one that asks.
pub proof fn lemma_overlap_symmetric(a: BoundingBox, b: BoundingBox)
    ensures
        a.overlaps(b) == b.overlaps(a),
{
}

} // verus!
