//! Axis-aligned bounding boxes, the overlap test, and the arena bounds.

use vstd::prelude::*;

verus! {

/// Coordinates and sizes the simulation works with stay within this limit,
/// so that sums of two of them never overflow an `i32`.
pub const COORD_LIMIT: i32 = 1_000_000;

/// An axis-aligned square bounding box: top-left corner and side length.
#[derive(Clone, Copy, Debug, PartialEq, Eq, Structural)]
pub struct Rect {
    pub x: i32,
    pub y: i32,
    pub size: i32,
}

/// The fixed arena: entities live in `[0, width] x [0, height]`.
#[derive(Clone, Copy, Debug, PartialEq, Eq, Structural)]
pub struct Bounds {
    pub width: i32,
    pub height: i32,
}

impl Rect {
    /// A well-formed box has a positive side and bounded coordinates.
    pub open spec fn wf(self) -> bool {
        0 < self.size <= COORD_LIMIT
            && -COORD_LIMIT <= self.x <= COORD_LIMIT
            && -COORD_LIMIT <= self.y <= COORD_LIMIT
    }
}

impl Bounds {
    pub open spec fn wf(self) -> bool {
        0 < self.width <= COORD_LIMIT && 0 < self.height <= COORD_LIMIT
    }
}

/// Two boxes overlap iff their projections on both axes intersect with
/// strict inequality on all four sides: touching edges do not count.
pub open spec fn rects_overlap(a: Rect, b: Rect) -> bool {
    a.x < b.x + b.size
        && b.x < a.x + a.size
        && a.y < b.y + b.size
        && b.y < a.y + a.size
}

/// Executable overlap test.
pub fn overlaps(a: &Rect, b: &Rect) -> (r: bool)
    requires
        a.wf(),
        b.wf(),
    ensures
        r == rects_overlap(*a, *b),
{
    a.x < b.x + b.size && b.x < a.x + a.size && a.y < b.y + b.size && b.y < a.y + a.size
}

/// The overlap test is symmetric in its arguments.
pub proof fn lemma_overlaps_symmetric(a: Rect, b: Rect)
    ensures
        rects_overlap(a, b) == rects_overlap(b, a),
{
}

} // verus!
