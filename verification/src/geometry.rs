//! Coordinate primitives: positions and extents on a grid.

use vstd::prelude::*;

verus! {

/// A position on a grid, counted from the top-left corner.
#[derive(Clone, Copy, Debug, PartialEq, Eq, Hash, Structural)]
pub struct Point {
    /// Column.
    pub x: u32,
    /// Row.
    pub y: u32,
}

/// The extent of a grid or of a rectangle: `x` is the width, `y` the height.
#[derive(Clone, Copy, Debug, PartialEq, Eq, Hash, Structural)]
pub struct Size {
    /// Width.
    pub x: u32,
    /// Height.
    pub y: u32,
}

/// Quickly construct a `Point`.
#[inline]
pub fn point(x: u32, y: u32) -> (p: Point)
    ensures
        p == (Point { x, y }),
{
    Point { x, y }
}

/// Quickly construct a `Size`.
#[inline]
pub fn size(x: u32, y: u32) -> (s: Size)
    ensures
        s == (Size { x, y }),
{
    Size { x, y }
}

impl Size {
    /// Whether `pt` lies inside a rectangle of this extent placed at the origin.
    pub open spec fn contains(self, pt: Point) -> bool {
        pt.x < self.x && pt.y < self.y
    }

    /// Number of cells in a rectangle of this extent.
    pub open spec fn area(self) -> nat {
        (self.x * self.y) as nat
    }
}

/// Coordinate-wise sum that stops at `u32::MAX` instead of wrapping.
pub open spec fn spec_offset_point(pt: Point, by: Point) -> Point {
    Point {
        x: if pt.x + by.x > u32::MAX { u32::MAX } else { (pt.x + by.x) as u32 },
        y: if pt.y + by.y > u32::MAX { u32::MAX } else { (pt.y + by.y) as u32 },
    }
}

/// Moves `pt` by `by`, saturating each coordinate at `u32::MAX`.
#[inline]
pub fn offset_point(pt: Point, by: Point) -> (r: Point)
    ensures
        r == spec_offset_point(pt, by),
{
    Point { x: pt.x.saturating_add(by.x), y: pt.y.saturating_add(by.y) }
}

} // verus!
