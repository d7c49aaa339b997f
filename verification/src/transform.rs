//! The geometric operations a blit can apply, one at a time: how each maps an
//! extent and a position forward, and how each is undone.

use crate::geometry::{Point, Size};
use vstd::arithmetic::div_mod::{lemma_div_by_multiple, lemma_multiply_divide_lt};
use vstd::arithmetic::mul::lemma_mul_is_commutative;
use vstd::prelude::*;

verus! {

/// Transformations that can be applied when blitting.
#[derive(Clone, Copy, Debug, PartialEq, Eq, Structural)]
#[non_exhaustive]
pub enum Transform {
    /// Scales the destination.
    /// Only upscaling is supported.
    UpScale {
        /// Scale x factor.
        x: u32,
        /// Scale y factor.
        y: u32,
    },
    /// Rotates the destination 90 degrees clockwise.
    Rotate90Cw,
    /// Rotates the destination 90 degrees counter-clockwise.
    Rotate90Ccw,
    /// Rotates the destination 180 degrees.
    Rotate180,
    /// Flips the destination horizontally.
    FlipHorizontal,
    /// Flips the destination vertically.
    FlipVertical,
    /// Flips the destination horizontally and vertically.
    FlipBoth,
}

/// The reflection of `coord` inside `[0, size)`: `size - coord - 1`, and zero
/// for a coordinate at or past `size`.
pub open spec fn spec_reversed(coord: u32, size: u32) -> u32 {
    if coord < size {
        (size - coord - 1) as u32
    } else {
        0
    }
}

/// Reflects `coord` inside `[0, size)`; both subtractions stop at zero.
#[inline]
pub fn reversed(coord: u32, size: u32) -> (r: u32)
    ensures
        r == spec_reversed(coord, size),
{
    size.saturating_sub(coord).saturating_sub(1)
}

impl Transform {
    /// Whether the transform can be undone: an up-scale divides by its
    /// factors, so neither may be zero.
    pub open spec fn invertible(self) -> bool {
        match self {
            Transform::UpScale { x, y } => x > 0 && y > 0,
            _ => true,
        }
    }

    /// Whether the extent that the transform makes of `s` still fits the
    /// coordinate type.
    pub open spec fn size_fits(self, s: Size) -> bool {
        match self {
            Transform::UpScale { x, y } => s.x * x <= u32::MAX && s.y * y <= u32::MAX,
            _ => true,
        }
    }

    /// Whether the position that the transform makes of `pt` still fits the
    /// coordinate type.
    pub open spec fn point_fits(self, pt: Point) -> bool {
        match self {
            Transform::UpScale { x, y } => pt.x * x <= u32::MAX && pt.y * y <= u32::MAX,
            _ => true,
        }
    }

    /// The extent of a space of extent `s` after the transform: an up-scale
    /// multiplies each axis, a quarter turn swaps the axes, the others keep
    /// the extent.
    pub open spec fn spec_apply_size(s: Size, this: Transform) -> Size {
        match this {
            Transform::UpScale { x, y } => Size { x: (s.x * x) as u32, y: (s.y * y) as u32 },
            Transform::Rotate90Cw | Transform::Rotate90Ccw => Size { x: s.y, y: s.x },
            _ => s,
        }
    }

    /// The extent before the transform of a space that has extent `s` after
    /// it: an up-scale divides each axis and drops the remainder.
    pub open spec fn spec_unapply_size(s: Size, this: Transform) -> Size {
        match this {
            Transform::UpScale { x, y } => Size { x: s.x / x, y: s.y / y },
            Transform::Rotate90Cw | Transform::Rotate90Ccw => Size { x: s.y, y: s.x },
            _ => s,
        }
    }

    /// Where the transform sends the position `state.0` of a space of extent
    /// `state.1`, together with the extent of the space it arrives in.
    pub open spec fn spec_apply(state: (Point, Size), this: Transform) -> (Point, Size) {
        let (pt, size) = state;
        let moved = match this {
            Transform::UpScale { x, y } => Point { x: (pt.x * x) as u32, y: (pt.y * y) as u32 },
            Transform::FlipHorizontal => Point { x: spec_reversed(pt.x, size.x), y: pt.y },
            Transform::FlipVertical => Point { x: pt.x, y: spec_reversed(pt.y, size.y) },
            Transform::FlipBoth => Point {
                x: spec_reversed(pt.x, size.x),
                y: spec_reversed(pt.y, size.y),
            },
            Transform::Rotate90Ccw => Point { x: pt.y, y: spec_reversed(pt.x, size.x) },
            Transform::Rotate90Cw => Point { x: spec_reversed(pt.y, size.y), y: pt.x },
            Transform::Rotate180 => Point {
                x: spec_reversed(pt.x, size.x),
                y: spec_reversed(pt.y, size.y),
            },
        };
        (moved, Self::spec_apply_size(size, this))
    }

    /// Where the position `state.0` of a transformed space of extent
    /// `state.1` came from, together with the extent of the space before the
    /// transform. The two quarter turns undo each other; an up-scale divides
    /// and drops the remainder, so a block of positions shares one origin.
    pub open spec fn spec_unapply(state: (Point, Size), this: Transform) -> (Point, Size) {
        let (pt, size) = state;
        let origin = match this {
            Transform::UpScale { x, y } => Point { x: pt.x / x, y: pt.y / y },
            Transform::FlipHorizontal => Point { x: spec_reversed(pt.x, size.x), y: pt.y },
            Transform::FlipVertical => Point { x: pt.x, y: spec_reversed(pt.y, size.y) },
            Transform::FlipBoth => Point {
                x: spec_reversed(pt.x, size.x),
                y: spec_reversed(pt.y, size.y),
            },
            Transform::Rotate180 => Point {
                x: spec_reversed(pt.x, size.x),
                y: spec_reversed(pt.y, size.y),
            },
            Transform::Rotate90Cw => Point { x: pt.y, y: spec_reversed(pt.x, size.x) },
            Transform::Rotate90Ccw => Point { x: spec_reversed(pt.y, size.y), y: pt.x },
        };
        (origin, Self::spec_unapply_size(size, this))
    }

    /// Maps a position and the extent of its space forward through `this`.
    #[inline]
    pub fn apply(state: (Point, Size), this: &Self) -> (r: (Point, Size))
        requires
            this.point_fits(state.0),
            this.size_fits(state.1),
        ensures
            r == Self::spec_apply(state, *this),
    {
        let (pt, size) = state;
        let moved = match this {
            Transform::UpScale { x, y } => Point { x: pt.x * *x, y: pt.y * *y },
            Transform::FlipHorizontal => Point { x: reversed(pt.x, size.x), y: pt.y },
            Transform::FlipVertical => Point { x: pt.x, y: reversed(pt.y, size.y) },
            Transform::FlipBoth => Point {
                x: reversed(pt.x, size.x),
                y: reversed(pt.y, size.y),
            },
            Transform::Rotate90Ccw => Point { x: pt.y, y: reversed(pt.x, size.x) },
            Transform::Rotate90Cw => Point { x: reversed(pt.y, size.y), y: pt.x },
            Transform::Rotate180 => Point {
                x: reversed(pt.x, size.x),
                y: reversed(pt.y, size.y),
            },
        };
        (moved, Self::apply_size(size, this))
    }

    /// Maps a position of the transformed space, and the extent of that
    /// space, back through `this`.
    #[inline]
    pub fn unapply(state: (Point, Size), this: &Self) -> (r: (Point, Size))
        requires
            this.invertible(),
        ensures
            r == Self::spec_unapply(state, *this),
    {
        let (pt, size) = state;
        let origin = match this {
            Transform::UpScale { x, y } => Point { x: pt.x / *x, y: pt.y / *y },
            Transform::FlipHorizontal => Point { x: reversed(pt.x, size.x), y: pt.y },
            Transform::FlipVertical => Point { x: pt.x, y: reversed(pt.y, size.y) },
            Transform::FlipBoth => Point {
                x: reversed(pt.x, size.x),
                y: reversed(pt.y, size.y),
            },
            Transform::Rotate180 => Point {
                x: reversed(pt.x, size.x),
                y: reversed(pt.y, size.y),
            },
            Transform::Rotate90Cw => Point { x: pt.y, y: reversed(pt.x, size.x) },
            Transform::Rotate90Ccw => Point { x: reversed(pt.y, size.y), y: pt.x },
        };
        (origin, Self::unapply_size(size, this))
    }

    /// The extent of a space of extent `s` after `this`.
    #[inline]
    pub fn apply_size(s: Size, this: &Self) -> (r: Size)
        requires
            this.size_fits(s),
        ensures
            r == Self::spec_apply_size(s, *this),
    {
        match this {
            Transform::UpScale { x, y } => Size { x: s.x * *x, y: s.y * *y },
            Transform::Rotate90Cw | Transform::Rotate90Ccw => Size { x: s.y, y: s.x },
            _ => s,
        }
    }

    /// The extent before `this` of a space that has extent `s` after it.
    #[inline]
    pub fn unapply_size(s: Size, this: &Self) -> (r: Size)
        requires
            this.invertible(),
        ensures
            r == Self::spec_unapply_size(s, *this),
    {
        match this {
            Transform::UpScale { x, y } => Size { x: s.x / *x, y: s.y / *y },
            Transform::Rotate90Cw | Transform::Rotate90Ccw => Size { x: s.y, y: s.x },
            _ => s,
        }
    }

    /// `apply_size`, but `None` where a scaled extent would not fit the
    /// coordinate type.
    pub fn checked_apply_size(s: Size, this: &Self) -> (r: Option<Size>)
        ensures
            r is Some <==> this.size_fits(s),
            r is Some ==> r->0 == Self::spec_apply_size(s, *this),
    {
        match this {
            Transform::UpScale { x, y } => {
                match (s.x.checked_mul(*x), s.y.checked_mul(*y)) {
                    (Some(w), Some(h)) => Some(Size { x: w, y: h }),
                    _ => None,
                }
            },
            Transform::Rotate90Cw | Transform::Rotate90Ccw => Some(Size { x: s.y, y: s.x }),
            _ => Some(s),
        }
    }
}

/// Undoing a transform gives back the extent it was applied to.
pub proof fn lemma_size_round_trip(s: Size, t: Transform)
    requires
        t.invertible(),
        t.size_fits(s),
    ensures
        Transform::spec_unapply_size(Transform::spec_apply_size(s, t), t) == s,
{
    if let Transform::UpScale { x, y } = t {
        lemma_div_by_multiple(s.x as int, x as int);
        lemma_div_by_multiple(s.y as int, y as int);
    }
}

/// A transform sends every position of a space into the transformed space.
pub proof fn lemma_apply_in_range(pt: Point, s: Size, t: Transform)
    requires
        s.contains(pt),
        t.invertible(),
        t.size_fits(s),
    ensures
        t.point_fits(pt),
        Transform::spec_apply_size(s, t).contains(Transform::spec_apply((pt, s), t).0),
{
    if let Transform::UpScale { x, y } = t {
        lemma_scaled_below(pt.x as int, s.x as int, x as int);
        lemma_scaled_below(pt.y as int, s.y as int, y as int);
    }
}

/// Undoing a transform sends every position of the transformed space back
/// into the space it was applied to, and gives back that space's extent.
pub proof fn lemma_unapply_in_range(pt: Point, s: Size, t: Transform)
    requires
        t.size_fits(s),
        Transform::spec_apply_size(s, t).contains(pt),
    ensures
        t.invertible(),
        Transform::spec_unapply((pt, Transform::spec_apply_size(s, t)), t).1 == s,
        s.contains(Transform::spec_unapply((pt, Transform::spec_apply_size(s, t)), t).0),
{
    if let Transform::UpScale { x, y } = t {
        assert(x > 0) by {
            if x == 0 {
                assert(s.x * x == 0) by (nonlinear_arith)
                    requires
                        x == 0,
                ;
            }
        }
        assert(y > 0) by {
            if y == 0 {
                assert(s.y * y == 0) by (nonlinear_arith)
                    requires
                        y == 0,
                ;
            }
        }
        lemma_div_by_multiple(s.x as int, x as int);
        lemma_div_by_multiple(s.y as int, y as int);
        lemma_mul_is_commutative(s.x as int, x as int);
        lemma_mul_is_commutative(s.y as int, y as int);
        lemma_multiply_divide_lt(pt.x as int, x as int, s.x as int);
        lemma_multiply_divide_lt(pt.y as int, y as int, s.y as int);
    }
}

/// Undoing a transform sends the image of a position back to that position.
pub proof fn lemma_point_round_trip(pt: Point, s: Size, t: Transform)
    requires
        s.contains(pt),
        t.invertible(),
        t.size_fits(s),
    ensures
        Transform::spec_unapply(Transform::spec_apply((pt, s), t), t) == (pt, s),
{
    lemma_size_round_trip(s, t);
    if let Transform::UpScale { x, y } = t {
        lemma_scaled_below(pt.x as int, s.x as int, x as int);
        lemma_scaled_below(pt.y as int, s.y as int, y as int);
        lemma_div_by_multiple(pt.x as int, x as int);
        lemma_div_by_multiple(pt.y as int, y as int);
    }
}

/// Scaling keeps a coordinate below the scaled bound.
proof fn lemma_scaled_below(c: int, bound: int, factor: int)
    by (nonlinear_arith)
    requires
        0 <= c < bound,
        0 < factor,
    ensures
        0 <= c * factor < bound * factor,
{
}

} // verus!
