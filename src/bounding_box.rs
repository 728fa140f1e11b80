use vstd::prelude::*;

verus! {

/// A bounding quadrilateral as the native layer lays it out: four (x, y) corner pairs in
/// field order. Each coordinate is the bit pattern of a single-precision float.
#[derive(Debug, Clone, Copy, PartialEq, Eq, Structural)]
pub struct RawBBox {
    pub x1: u32,
    pub y1: u32,
    pub x2: u32,
    pub y2: u32,
    pub x3: u32,
    pub y3: u32,
    pub x4: u32,
    pub y4: u32,
}

/// A point in 2D space; each coordinate is the bit pattern of a single-precision float.
#[derive(Debug, Clone, Copy, Default, PartialEq, Eq, Structural)]
pub struct Point {
    pub x: u32,
    pub y: u32,
}

/// A bounding box that tightly encloses recognized text, with named corners.
#[derive(Debug, Clone, Copy, Default, PartialEq, Eq, Structural)]
pub struct BoundingBox {
    pub top_left: Point,
    pub top_right: Point,
    pub bottom_right: Point,
    pub bottom_left: Point,
}

/// The fixed corner mapping: (x1, y1) is top-left, (x2, y2) top-right, (x3, y3)
/// bottom-right and (x4, y4) bottom-left.
pub open spec fn corners_of(raw: RawBBox) -> BoundingBox {
    BoundingBox {
        top_left: Point { x: raw.x1, y: raw.y1 },
        top_right: Point { x: raw.x2, y: raw.y2 },
        bottom_right: Point { x: raw.x3, y: raw.y3 },
        bottom_left: Point { x: raw.x4, y: raw.y4 },
    }
}

/// The native layout of a bounding box with named corners.
pub open spec fn raw_of(b: BoundingBox) -> RawBBox {
    RawBBox {
        x1: b.top_left.x,
        y1: b.top_left.y,
        x2: b.top_right.x,
        y2: b.top_right.y,
        x3: b.bottom_right.x,
        y3: b.bottom_right.y,
        x4: b.bottom_left.x,
        y4: b.bottom_left.y,
    }
}

impl BoundingBox {
    /// Names the corners of a native bounding box.
    pub fn new(bbox: RawBBox) -> (r: Self)
        ensures
            r == corners_of(bbox),
    {
        BoundingBox {
            top_left: Point { x: bbox.x1, y: bbox.y1 },
            top_right: Point { x: bbox.x2, y: bbox.y2 },
            bottom_right: Point { x: bbox.x3, y: bbox.y3 },
            bottom_left: Point { x: bbox.x4, y: bbox.y4 },
        }
    }
}

/// The corner mapping is a bijection between native layouts and named boxes: `raw_of`
/// undoes it, and it undoes `raw_of`.
pub proof fn lemma_corner_mapping_bijective(raw: RawBBox, b: BoundingBox)
    ensures
        raw_of(corners_of(raw)) == raw,
        corners_of(raw_of(b)) == b,
        forall|r1: RawBBox, r2: RawBBox| corners_of(r1) == corners_of(r2) ==> r1 == r2,
{
    assert forall|r1: RawBBox, r2: RawBBox| corners_of(r1) == corners_of(r2) implies r1 == r2 by {
        assert(raw_of(corners_of(r1)) == r1);
        assert(raw_of(corners_of(r2)) == r2);
    }
}

} // verus!
