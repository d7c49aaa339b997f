//! Blitting between buffers that have a plain width and height, at offsets
//! that may be negative, without a transform list.
//!
//! A buffer panics on a position outside its extent, so the copy rectangle
//! is cropped ahead of the copy: nothing outside either buffer is touched.

use crate::blit::{passed, rect_position};
use crate::geometry::{Point, Size};
use crate::transform::{reversed, spec_reversed};
use vstd::prelude::*;

verus! {

/// A position that may lie before the origin of a grid.
#[derive(Clone, Copy, Debug, PartialEq, Eq, Hash, Structural)]
pub struct Offset {
    /// Column; negative to the left of the grid.
    pub x: i32,
    /// Row; negative above the grid.
    pub y: i32,
}

/// Quickly construct an `Offset`.
#[inline]
pub fn offset(x: i32, y: i32) -> (o: Offset)
    ensures
        o == (Offset { x, y }),
{
    Offset { x, y }
}

/// How a fixed-origin blit mirrors the cropped rectangle on the destination.
#[derive(Clone, Copy, Debug, PartialEq, Eq, Structural)]
pub enum Flip {
    /// No mirroring.
    Off,
    /// Columns are written right to left.
    Horizontal,
    /// Rows are written bottom to top.
    Vertical,
    /// Both columns and rows are reversed.
    Both,
}

impl Default for Flip {
    fn default() -> (r: Self)
        ensures
            r == Flip::Off,
    {
        Flip::Off
    }
}

/// A buffer of values with a width and a height.
///
/// The buffer is modelled by its extent and the value at each position of
/// it. Reading needs a complete buffer: one that holds a value at every
/// position of its extent.
pub trait Buffer<T> {
    /// Width of the buffer.
    spec fn spec_width(&self) -> u32;

    /// Height of the buffer.
    spec fn spec_height(&self) -> u32;

    /// Whether the buffer holds a value at every position of its extent.
    spec fn spec_complete(&self) -> bool;

    /// The value at `pt`; meaningful for positions inside the extent.
    spec fn spec_at(&self, pt: Point) -> T;

    /// Width of the buffer.
    fn width(&self) -> (w: u32)
        ensures
            w == self.spec_width(),
    ;

    /// Height of the buffer.
    fn height(&self) -> (h: u32)
        ensures
            h == self.spec_height(),
    ;

    /// Get the value at (x, y), which must lie inside the buffer.
    fn get(&self, x: u32, y: u32) -> (r: &T)
        requires
            self.spec_complete(),
            x < self.spec_width(),
            y < self.spec_height(),
        ensures
            *r == self.spec_at(Point { x, y }),
    ;
}

/// A buffer whose values can be written.
pub trait BufferMut<T>: Buffer<T> {
    /// Get the value at (x, y), which must lie inside the buffer, for
    /// writing. What the caller writes becomes the value at (x, y); the
    /// extent and every other position stay as they were.
    fn get_mut(&mut self, x: u32, y: u32) -> (r: &mut T)
        requires
            (*old(self)).spec_complete(),
            x < (*old(self)).spec_width(),
            y < (*old(self)).spec_height(),
        ensures
            (*final(self)).spec_complete(),
            (*final(self)).spec_width() == (*old(self)).spec_width(),
            (*final(self)).spec_height() == (*old(self)).spec_height(),
            *r == (*old(self)).spec_at(Point { x, y }),
            (*final(self)).spec_at(Point { x, y }) == *final(r),
            forall|q: Point|
                q != (Point { x, y }) && q.x < (*old(self)).spec_width() && q.y < (*old(
                    self,
                )).spec_height() ==> (*final(self)).spec_at(q) == (*old(self)).spec_at(q),
    ;
}

/// The extent of a buffer.
pub open spec fn spec_extent<T, B: Buffer<T>>(buffer: &B) -> Size {
    Size { x: buffer.spec_width(), y: buffer.spec_height() }
}

/// The rectangle that a fixed-origin blit copies, after cropping.
#[derive(Clone, Copy, Debug, PartialEq, Eq, Structural)]
pub struct Crop {
    /// Where the rectangle starts on the destination.
    pub dest_start: Point,
    /// Where the rectangle starts on the source.
    pub src_start: Point,
    /// Extent of the rectangle.
    pub size: Size,
}

/// The smaller of two numbers.
pub open spec fn spec_smaller(a: u32, b: u32) -> u32 {
    if a < b {
        a
    } else {
        b
    }
}

/// `a - b`, or zero where `b` is the larger.
pub open spec fn spec_minus(a: u32, b: u32) -> u32 {
    if a > b {
        (a - b) as u32
    } else {
        0
    }
}

/// Where a rectangle placed at `offset` starts on an axis of a grid: at the
/// offset, or at zero for a negative offset.
pub open spec fn spec_axis_start(offset: i32) -> u32 {
    if offset < 0 {
        0
    } else {
        offset as u32
    }
}

/// How much of a rectangle a negative offset leaves before the origin of a
/// grid's axis.
pub open spec fn spec_axis_cut(offset: i32) -> u32 {
    if offset < 0 {
        (-offset) as u32
    } else {
        0
    }
}

/// The length of the cropped rectangle on one axis: the smallest of what the
/// destination has from its start, what the source has from its start, and
/// what either offset leaves of the requested length.
pub open spec fn spec_crop_axis(
    dest_extent: u32,
    dest_offset: i32,
    src_extent: u32,
    src_offset: i32,
    length: u32,
) -> u32 {
    spec_smaller(
        spec_smaller(
            spec_minus(dest_extent, spec_axis_start(dest_offset)),
            spec_minus(src_extent, spec_axis_start(src_offset)),
        ),
        spec_smaller(
            spec_minus(length, spec_axis_cut(dest_offset)),
            spec_minus(length, spec_axis_cut(src_offset)),
        ),
    )
}

/// The cropped rectangle of a blit of `size` from `src_pos` on a source of
/// extent `src_size` to `dest_pos` on a destination of extent `dest_size`.
pub open spec fn spec_crop(
    dest_size: Size,
    dest_pos: Offset,
    src_size: Size,
    src_pos: Offset,
    size: Size,
) -> Crop {
    Crop {
        dest_start: Point { x: spec_axis_start(dest_pos.x), y: spec_axis_start(dest_pos.y) },
        src_start: Point { x: spec_axis_start(src_pos.x), y: spec_axis_start(src_pos.y) },
        size: Size {
            x: spec_crop_axis(dest_size.x, dest_pos.x, src_size.x, src_pos.x, size.x),
            y: spec_crop_axis(dest_size.y, dest_pos.y, src_size.y, src_pos.y, size.y),
        },
    }
}

/// The cropped rectangle of a blit between two buffers.
pub open spec fn buffers_crop<D, S, Dst: Buffer<D>, Src: Buffer<S>>(
    dest: &Dst,
    dest_pos: Offset,
    src: &Src,
    src_pos: Offset,
    size: Size,
) -> Crop {
    spec_crop(spec_extent(dest), dest_pos, spec_extent(src), src_pos, size)
}

/// The smaller of two numbers.
#[inline]
fn smaller(a: u32, b: u32) -> (r: u32)
    ensures
        r == spec_smaller(a, b),
{
    if a < b {
        a
    } else {
        b
    }
}

/// Start and remaining length on one axis for a rectangle of `length`
/// placed at `offset`.
#[inline]
fn clamp_axis(offset: i32, length: u32) -> (r: (u32, u32))
    ensures
        r.0 == spec_axis_start(offset),
        r.1 == spec_minus(length, spec_axis_cut(offset)),
{
    if offset < 0 {
        let cut = (-(offset as i64)) as u32;
        (0, length.saturating_sub(cut))
    } else {
        (offset as u32, length)
    }
}

/// Crops the copy rectangle of a blit to what both grids have.
///
/// The rectangle that comes out lies inside both grids.
pub fn crop(dest_size: Size, dest_pos: Offset, src_size: Size, src_pos: Offset, size: Size) -> (r:
    Crop)
    ensures
        r == spec_crop(dest_size, dest_pos, src_size, src_pos, size),
        r.dest_start.x + r.size.x <= dest_size.x || r.size.x == 0,
        r.dest_start.y + r.size.y <= dest_size.y || r.size.y == 0,
        r.src_start.x + r.size.x <= src_size.x || r.size.x == 0,
        r.src_start.y + r.size.y <= src_size.y || r.size.y == 0,
{
    let (dx, dw) = clamp_axis(dest_pos.x, size.x);
    let (dy, dh) = clamp_axis(dest_pos.y, size.y);
    let (sx, sw) = clamp_axis(src_pos.x, size.x);
    let (sy, sh) = clamp_axis(src_pos.y, size.y);
    let width = smaller(
        smaller(dest_size.x.saturating_sub(dx), src_size.x.saturating_sub(sx)),
        smaller(dw, sw),
    );
    let height = smaller(
        smaller(dest_size.y.saturating_sub(dy), src_size.y.saturating_sub(sy)),
        smaller(dh, sh),
    );
    Crop {
        dest_start: Point { x: dx, y: dy },
        src_start: Point { x: sx, y: sy },
        size: Size { x: width, y: height },
    }
}

/// The position of the cropped rectangle that a mirrored position stands
/// for, and the other way round: mirroring twice gives the position back.
pub open spec fn spec_mirror(p: Point, extent: Size, flip: Flip) -> Point {
    match flip {
        Flip::Off => p,
        Flip::Horizontal => Point { x: spec_reversed(p.x, extent.x), y: p.y },
        Flip::Vertical => Point { x: p.x, y: spec_reversed(p.y, extent.y) },
        Flip::Both => Point { x: spec_reversed(p.x, extent.x), y: spec_reversed(p.y, extent.y) },
    }
}

/// Mirrors a position inside a rectangle of extent `extent`.
#[inline]
fn mirror(p: Point, extent: Size, flip: Flip) -> (r: Point)
    ensures
        r == spec_mirror(p, extent, flip),
{
    match flip {
        Flip::Off => p,
        Flip::Horizontal => Point { x: reversed(p.x, extent.x), y: p.y },
        Flip::Vertical => Point { x: p.x, y: reversed(p.y, extent.y) },
        Flip::Both => Point { x: reversed(p.x, extent.x), y: reversed(p.y, extent.y) },
    }
}

/// The position of the cropped rectangle whose source value a blit shows at
/// the destination position `q`; `None` where the rectangle does not reach
/// `q`.
pub open spec fn fixed_origin(q: Point, area: Crop, flip: Flip) -> Option<Point> {
    match rect_position(q, area.dest_start, area.size) {
        Some(p) => Some(spec_mirror(p, area.size, flip)),
        None => None,
    }
}

/// The source position that belongs to the position `p` of the cropped
/// rectangle.
pub open spec fn fixed_source(p: Point, area: Crop) -> Point {
    Point { x: (area.src_start.x + p.x) as u32, y: (area.src_start.y + p.y) as u32 }
}

/// The source value that a blit shows at the destination position `q`;
/// `None` where the cropped rectangle does not reach `q`.
pub open spec fn fixed_value<S, Src: Buffer<S>>(
    src: &Src,
    q: Point,
    area: Crop,
    flip: Flip,
) -> Option<S> {
    match fixed_origin(q, area, flip) {
        Some(p) => Some(src.spec_at(fixed_source(p, area))),
        None => None,
    }
}

/// Blit part of one buffer to another (generalized function), at offsets
/// that may be negative.
///
/// The copy rectangle is cropped to what both buffers have. `func` is
/// called once for each position of the cropped rectangle, with the
/// destination value, the source value and the position inside the
/// rectangle. With a flip, the destination side of the rectangle is
/// mirrored. Every destination position outside the rectangle keeps its
/// value; with an empty rectangle the destination is unchanged.
pub fn blit_fixed_with<D, S>(
    dest: &mut impl BufferMut<D>,
    dest_pos: Offset,
    src: &impl Buffer<S>,
    src_pos: Offset,
    size: Size,
    flip: Flip,
    mut func: impl FnMut(&mut D, &S, Point),
)
    requires
        (*old(dest)).spec_complete(),
        src.spec_complete(),
        forall|q: Point, r: &mut D, p: Point|
            #![trigger (*old(dest)).spec_at(q), call_requires(func, (r, &src.spec_at(fixed_source(p, buffers_crop(&*old(dest), dest_pos, src, src_pos, size))), p))]
            fixed_origin(
                q,
                buffers_crop(&*old(dest), dest_pos, src, src_pos, size),
                flip,
            ) == Some(p) && (*old(dest)).spec_at(q) == *r ==> call_requires(
                func,
                (
                    r,
                    &src.spec_at(
                        fixed_source(
                            p,
                            buffers_crop(&*old(dest), dest_pos, src, src_pos, size),
                        ),
                    ),
                    p,
                ),
            ),
    ensures
        (*final(dest)).spec_complete(),
        spec_extent(&*final(dest)) == spec_extent(&*old(dest)),
        forall|q: Point|
            #![trigger (*final(dest)).spec_at(q)]
            #![trigger (*old(dest)).spec_at(q)]
            #![trigger fixed_origin(q, buffers_crop(&*old(dest), dest_pos, src, src_pos, size), flip)]
            spec_extent(&*old(dest)).contains(q) ==> match fixed_origin(
                q,
                buffers_crop(&*old(dest), dest_pos, src, src_pos, size),
                flip,
            ) {
                Some(p) => exists|r: &mut D|
                    #![trigger call_ensures(func, (r, &src.spec_at(fixed_source(p, buffers_crop(&*old(dest), dest_pos, src, src_pos, size))), p), ())]
                    *r == (*old(dest)).spec_at(q) && (*final(dest)).spec_at(q) == *final(r)
                        && call_ensures(
                        func,
                        (
                            r,
                            &src.spec_at(
                                fixed_source(
                                    p,
                                    buffers_crop(&*old(dest), dest_pos, src, src_pos, size),
                                ),
                            ),
                            p,
                        ),
                        (),
                    ),
                None => (*final(dest)).spec_at(q) == (*old(dest)).spec_at(q),
            },
        buffers_crop(&*old(dest), dest_pos, src, src_pos, size).size.area()
            == 0 ==> forall|q: Point|
            spec_extent(&*old(dest)).contains(q) ==> #[trigger] (*final(dest)).spec_at(q) == (*old(
                dest,
            )).spec_at(q),
{
    let ghost start = *dest;
    let ghost begun = func;
    let dest_size = Size { x: (*dest).width(), y: (*dest).height() };
    let src_size = Size { x: src.width(), y: src.height() };
    let area = crop(dest_size, dest_pos, src_size, src_pos, size);
    proof {
        if area.size.x != 0 && area.size.y != 0 {
            assert(area.size.x * area.size.y != 0) by (nonlinear_arith)
                requires
                    area.size.x != 0,
                    area.size.y != 0,
            ;
        }
    }
    let mut iy: u32 = 0;
    while iy < area.size.y
        invariant
            iy <= area.size.y,
            area == spec_crop(dest_size, dest_pos, src_size, src_pos, size),
            area.dest_start.x + area.size.x <= dest_size.x || area.size.x == 0,
            area.dest_start.y + area.size.y <= dest_size.y || area.size.y == 0,
            area.src_start.x + area.size.x <= src_size.x || area.size.x == 0,
            area.src_start.y + area.size.y <= src_size.y || area.size.y == 0,
            src_size == spec_extent(src),
            src.spec_complete(),
            func == begun,
            forall|q: Point, r: &mut D, p: Point|
                #![trigger start.spec_at(q), call_requires(begun, (r, &src.spec_at(fixed_source(p, area)), p))]
                fixed_origin(q, area, flip) == Some(p) && start.spec_at(q) == *r
                    ==> call_requires(begun, (r, &src.spec_at(fixed_source(p, area)), p)),
            (*dest).spec_complete(),
            spec_extent(&*dest) == dest_size,
            forall|q: Point|
                #![trigger (*dest).spec_at(q)]
                #![trigger start.spec_at(q)]
                #![trigger fixed_origin(q, area, flip)]
                dest_size.contains(q) ==> match fixed_origin(q, area, flip) {
                    Some(p) => if passed(p, 0, iy as int) {
                        exists|r: &mut D|
                            #![trigger call_ensures(begun, (r, &src.spec_at(fixed_source(p, area)), p), ())]
                            *r == start.spec_at(q) && (*dest).spec_at(q) == *final(r)
                                && call_ensures(
                                begun,
                                (r, &src.spec_at(fixed_source(p, area)), p),
                                (),
                            )
                    } else {
                        (*dest).spec_at(q) == start.spec_at(q)
                    },
                    None => (*dest).spec_at(q) == start.spec_at(q),
                },
        decreases area.size.y - iy,
    {
        let mut ix: u32 = 0;
        while ix < area.size.x
            invariant
                ix <= area.size.x,
                iy < area.size.y,
                area == spec_crop(dest_size, dest_pos, src_size, src_pos, size),
                area.dest_start.x + area.size.x <= dest_size.x || area.size.x == 0,
                area.dest_start.y + area.size.y <= dest_size.y || area.size.y == 0,
                area.src_start.x + area.size.x <= src_size.x || area.size.x == 0,
                area.src_start.y + area.size.y <= src_size.y || area.size.y == 0,
                src_size == spec_extent(src),
                src.spec_complete(),
                func == begun,
                forall|q: Point, r: &mut D, p: Point|
                    #![trigger start.spec_at(q), call_requires(begun, (r, &src.spec_at(fixed_source(p, area)), p))]
                    fixed_origin(q, area, flip) == Some(p) && start.spec_at(q) == *r
                        ==> call_requires(begun, (r, &src.spec_at(fixed_source(p, area)), p)),
                (*dest).spec_complete(),
                spec_extent(&*dest) == dest_size,
                forall|q: Point|
                    #![trigger (*dest).spec_at(q)]
                    #![trigger start.spec_at(q)]
                    #![trigger fixed_origin(q, area, flip)]
                    dest_size.contains(q) ==> match fixed_origin(q, area, flip) {
                        Some(p) => if passed(p, ix as int, iy as int) {
                            exists|r: &mut D|
                                #![trigger call_ensures(begun, (r, &src.spec_at(fixed_source(p, area)), p), ())]
                                *r == start.spec_at(q) && (*dest).spec_at(q) == *final(r)
                                    && call_ensures(
                                    begun,
                                    (r, &src.spec_at(fixed_source(p, area)), p),
                                    (),
                                )
                        } else {
                            (*dest).spec_at(q) == start.spec_at(q)
                        },
                        None => (*dest).spec_at(q) == start.spec_at(q),
                    },
            decreases area.size.x - ix,
        {
            let here = Point { x: ix, y: iy };
            let there = mirror(here, area.size, flip);
            let ghost target = Point {
                x: (area.dest_start.x + there.x) as u32,
                y: (area.dest_start.y + there.y) as u32,
            };
            proof {
                assert(spec_mirror(there, area.size, flip) == here);
                assert(rect_position(target, area.dest_start, area.size) == Some(there));
                assert(fixed_origin(target, area, flip) == Some(here));
                assert forall|q: Point|
                    q != target && dest_size.contains(q) && fixed_origin(q, area, flip) is Some
                    implies fixed_origin(q, area, flip) != Some(here) by {
                    let p = rect_position(q, area.dest_start, area.size)->0;
                    assert(spec_mirror(spec_mirror(p, area.size, flip), area.size, flip) == p);
                }
            }
            let value = src.get(area.src_start.x + ix, area.src_start.y + iy);
            let cell = (*dest).get_mut(area.dest_start.x + there.x, area.dest_start.y + there.y);
            func(cell, value, here);
            ix += 1;
        }
        iy += 1;
    }
}

/// Blit part of one buffer to another, cloning the values, at offsets that
/// may be negative.
///
/// Every destination position under the cropped rectangle holds a clone of
/// its source value afterwards; every other position keeps its value.
#[inline]
pub fn blit_fixed<T: Clone>(
    dest: &mut impl BufferMut<T>,
    dest_pos: Offset,
    src: &impl Buffer<T>,
    src_pos: Offset,
    size: Size,
    flip: Flip,
)
    requires
        (*old(dest)).spec_complete(),
        src.spec_complete(),
    ensures
        (*final(dest)).spec_complete(),
        spec_extent(&*final(dest)) == spec_extent(&*old(dest)),
        forall|q: Point|
            #![trigger (*final(dest)).spec_at(q)]
            #![trigger (*old(dest)).spec_at(q)]
            spec_extent(&*old(dest)).contains(q) ==> match fixed_value(
                src,
                q,
                buffers_crop(&*old(dest), dest_pos, src, src_pos, size),
                flip,
            ) {
                Some(s) => cloned(s, (*final(dest)).spec_at(q)),
                None => (*final(dest)).spec_at(q) == (*old(dest)).spec_at(q),
            },
{
    let copy_cell = |d: &mut T, s: &T, _p: Point|
        ensures
            cloned(*s, *final(d)),
        {
            *d = s.clone();
        };
    blit_fixed_with(dest, dest_pos, src, src_pos, size, flip, copy_cell);
}

/// Blit part of one buffer to another, converting the values, at offsets
/// that may be negative.
///
/// Every destination position under the cropped rectangle holds afterwards
/// what `D::from` makes of a clone of its source value; every other position
/// keeps its value.
#[inline]
pub fn blit_fixed_convert<D: From<S>, S: Clone>(
    dest: &mut impl BufferMut<D>,
    dest_pos: Offset,
    src: &impl Buffer<S>,
    src_pos: Offset,
    size: Size,
    flip: Flip,
)
    requires
        (*old(dest)).spec_complete(),
        src.spec_complete(),
    ensures
        (*final(dest)).spec_complete(),
        spec_extent(&*final(dest)) == spec_extent(&*old(dest)),
        forall|q: Point|
            #![trigger (*final(dest)).spec_at(q)]
            #![trigger (*old(dest)).spec_at(q)]
            spec_extent(&*old(dest)).contains(q) ==> match fixed_value(
                src,
                q,
                buffers_crop(&*old(dest), dest_pos, src, src_pos, size),
                flip,
            ) {
                Some(s) => exists|c: S|
                    #![trigger cloned(s, c)]
                    #![trigger call_ensures(D::from, (c,), (*final(dest)).spec_at(q))]
                    cloned(s, c) && call_ensures(D::from, (c,), (*final(dest)).spec_at(q)),
                None => (*final(dest)).spec_at(q) == (*old(dest)).spec_at(q),
            },
{
    let convert_cell = |d: &mut D, s: &S, _p: Point|
        ensures
            exists|c: S|
                #![trigger cloned(*s, c)]
                #![trigger call_ensures(D::from, (c,), *final(d))]
                cloned(*s, c) && call_ensures(D::from, (c,), *final(d)),
        {
            *d = D::from(s.clone());
        };
    blit_fixed_with(dest, dest_pos, src, src_pos, size, flip, convert_cell);
}

/// Blit the whole of one buffer to another, cloning the values.
///
/// The requested rectangle is the source's extent; the rest is
/// `blit_fixed`.
#[inline]
pub fn blit_fixed_whole<T: Clone, Src: Buffer<T>>(
    dest: &mut impl BufferMut<T>,
    dest_pos: Offset,
    src: &Src,
    src_pos: Offset,
    flip: Flip,
)
    requires
        (*old(dest)).spec_complete(),
        src.spec_complete(),
    ensures
        (*final(dest)).spec_complete(),
        spec_extent(&*final(dest)) == spec_extent(&*old(dest)),
        forall|q: Point|
            #![trigger (*final(dest)).spec_at(q)]
            #![trigger (*old(dest)).spec_at(q)]
            spec_extent(&*old(dest)).contains(q) ==> match fixed_value(
                src,
                q,
                buffers_crop(&*old(dest), dest_pos, src, src_pos, spec_extent(src)),
                flip,
            ) {
                Some(s) => cloned(s, (*final(dest)).spec_at(q)),
                None => (*final(dest)).spec_at(q) == (*old(dest)).spec_at(q),
            },
{
    let size = Size { x: src.width(), y: src.height() };
    blit_fixed(dest, dest_pos, src, src_pos, size, flip);
}

/// On one axis, how many positions of a rectangle of `length` lie on both
/// grids when the rectangle is placed at `dest_offset` on the destination
/// and at `src_offset` on the source: the positions `i` below `length` with
/// `dest_offset + i` inside the destination and `src_offset + i` inside the
/// source.
pub open spec fn spec_overlap_axis(
    dest_extent: u32,
    dest_offset: i32,
    src_extent: u32,
    src_offset: i32,
    length: u32,
) -> int {
    let low = vstd::math::max(0, vstd::math::max(-dest_offset, -src_offset));
    let high = vstd::math::min(
        length as int,
        vstd::math::min(dest_extent - dest_offset, src_extent - src_offset),
    );
    if high > low {
        high - low
    } else {
        0
    }
}

/// On one axis, the first position of the requested rectangle that may lie
/// on both grids: what the more negative of the two offsets leaves before
/// the origin.
pub open spec fn spec_overlap_start(dest_offset: i32, src_offset: i32) -> int {
    vstd::math::max(0, vstd::math::max(-dest_offset, -src_offset))
}

/// The positions of the requested rectangle that lie on both grids are the
/// `spec_overlap_axis` positions from `spec_overlap_start` on.
pub proof fn lemma_overlap_axis_positions(
    dest_extent: u32,
    dest_offset: i32,
    src_extent: u32,
    src_offset: i32,
    length: u32,
    i: int,
)
    ensures
        (0 <= i < length && 0 <= dest_offset + i < dest_extent && 0 <= src_offset + i
            < src_extent) <==> (spec_overlap_start(dest_offset, src_offset) <= i
            < spec_overlap_start(dest_offset, src_offset) + spec_overlap_axis(
            dest_extent,
            dest_offset,
            src_extent,
            src_offset,
            length,
        )),
{
}

/// Whether, on one axis, the cropped rectangle still lies inside each grid
/// when it is moved there by what only the other grid's offset cuts off.
/// Offsets that are both non-negative, or equally negative, always agree.
pub open spec fn spec_cuts_agree(
    dest_extent: u32,
    dest_offset: i32,
    src_extent: u32,
    src_offset: i32,
    length: u32,
) -> bool {
    let cut = vstd::math::max(spec_axis_cut(dest_offset) as int, spec_axis_cut(src_offset) as int);
    let kept = spec_crop_axis(dest_extent, dest_offset, src_extent, src_offset, length);
    kept == 0 || (spec_axis_start(dest_offset) + (cut - spec_axis_cut(dest_offset)) + kept
        <= dest_extent && spec_axis_start(src_offset) + (cut - spec_axis_cut(src_offset)) + kept
        <= src_extent)
}

/// On one axis the cropped rectangle is never shorter than what both grids
/// share of the requested rectangle, and it is exactly as long where the
/// cuts of the two offsets agree, and only there.
pub proof fn lemma_crop_axis_overlap(
    dest_extent: u32,
    dest_offset: i32,
    src_extent: u32,
    src_offset: i32,
    length: u32,
)
    ensures
        spec_overlap_axis(dest_extent, dest_offset, src_extent, src_offset, length)
            <= spec_crop_axis(dest_extent, dest_offset, src_extent, src_offset, length),
        spec_overlap_axis(dest_extent, dest_offset, src_extent, src_offset, length)
            == spec_crop_axis(dest_extent, dest_offset, src_extent, src_offset, length)
            <==> spec_cuts_agree(dest_extent, dest_offset, src_extent, src_offset, length),
{
}

/// Whether the cropped rectangle is empty, or the cuts of the two offsets
/// agree on both axes.
pub open spec fn spec_crop_is_overlap(
    dest_size: Size,
    dest_pos: Offset,
    src_size: Size,
    src_pos: Offset,
    size: Size,
) -> bool {
    spec_crop(dest_size, dest_pos, src_size, src_pos, size).size.area() == 0 || (spec_cuts_agree(
        dest_size.x,
        dest_pos.x,
        src_size.x,
        src_pos.x,
        size.x,
    ) && spec_cuts_agree(dest_size.y, dest_pos.y, src_size.y, src_pos.y, size.y))
}

/// The number of positions that a fixed-origin blit copies is the number of
/// positions of the requested rectangle that lie on both grids, where the
/// cropped rectangle is empty or the cuts of the two offsets agree on both
/// axes.
pub proof fn lemma_crop_area(
    dest_size: Size,
    dest_pos: Offset,
    src_size: Size,
    src_pos: Offset,
    size: Size,
)
    requires
        spec_crop_is_overlap(dest_size, dest_pos, src_size, src_pos, size),
    ensures
        spec_crop(dest_size, dest_pos, src_size, src_pos, size).size.area() == spec_overlap_axis(
            dest_size.x,
            dest_pos.x,
            src_size.x,
            src_pos.x,
            size.x,
        ) * spec_overlap_axis(dest_size.y, dest_pos.y, src_size.y, src_pos.y, size.y),
{
    lemma_crop_axis_overlap(dest_size.x, dest_pos.x, src_size.x, src_pos.x, size.x);
    lemma_crop_axis_overlap(dest_size.y, dest_pos.y, src_size.y, src_pos.y, size.y);
    let area = spec_crop(dest_size, dest_pos, src_size, src_pos, size).size;
    let ox = spec_overlap_axis(dest_size.x, dest_pos.x, src_size.x, src_pos.x, size.x);
    let oy = spec_overlap_axis(dest_size.y, dest_pos.y, src_size.y, src_pos.y, size.y);
    if area.x * area.y == 0 {
        assert(area.x == 0 || area.y == 0) by (nonlinear_arith)
            requires
                area.x * area.y == 0,
        ;
        assert(ox * oy == 0) by (nonlinear_arith)
            requires
                ox == 0 || oy == 0,
        ;
    }
}

/// For every other request a fixed-origin blit copies more positions than
/// the requested rectangle has on both grids: a cut that only one offset
/// makes is not taken from the other grid.
pub proof fn lemma_crop_area_exceeds(
    dest_size: Size,
    dest_pos: Offset,
    src_size: Size,
    src_pos: Offset,
    size: Size,
)
    requires
        !spec_crop_is_overlap(dest_size, dest_pos, src_size, src_pos, size),
    ensures
        spec_crop(dest_size, dest_pos, src_size, src_pos, size).size.area() > spec_overlap_axis(
            dest_size.x,
            dest_pos.x,
            src_size.x,
            src_pos.x,
            size.x,
        ) * spec_overlap_axis(dest_size.y, dest_pos.y, src_size.y, src_pos.y, size.y),
{
    lemma_crop_axis_overlap(dest_size.x, dest_pos.x, src_size.x, src_pos.x, size.x);
    lemma_crop_axis_overlap(dest_size.y, dest_pos.y, src_size.y, src_pos.y, size.y);
    let area = spec_crop(dest_size, dest_pos, src_size, src_pos, size).size;
    let ox = spec_overlap_axis(dest_size.x, dest_pos.x, src_size.x, src_pos.x, size.x);
    let oy = spec_overlap_axis(dest_size.y, dest_pos.y, src_size.y, src_pos.y, size.y);
    if ox < area.x {
        assert(ox * oy < area.x * area.y) by (nonlinear_arith)
            requires
                0 <= ox < area.x,
                0 <= oy <= area.y,
                area.x * area.y != 0,
        ;
    } else {
        assert(ox * oy < area.x * area.y) by (nonlinear_arith)
            requires
                0 <= ox <= area.x,
                0 <= oy < area.y,
                area.x * area.y != 0,
        ;
    }
}

/// The number of positions that a fixed-origin blit copies is never less
/// than the number of positions of the requested rectangle that lie on both
/// grids.
pub proof fn lemma_crop_area_covers(
    dest_size: Size,
    dest_pos: Offset,
    src_size: Size,
    src_pos: Offset,
    size: Size,
)
    ensures
        spec_crop(dest_size, dest_pos, src_size, src_pos, size).size.area() >= spec_overlap_axis(
            dest_size.x,
            dest_pos.x,
            src_size.x,
            src_pos.x,
            size.x,
        ) * spec_overlap_axis(dest_size.y, dest_pos.y, src_size.y, src_pos.y, size.y),
{
    if spec_crop_is_overlap(dest_size, dest_pos, src_size, src_pos, size) {
        lemma_crop_area(dest_size, dest_pos, src_size, src_pos, size);
    } else {
        lemma_crop_area_exceeds(dest_size, dest_pos, src_size, src_pos, size);
    }
}

/// With an empty cropped rectangle a blit shows no source value anywhere:
/// every destination position keeps its value.
pub proof fn lemma_empty_crop_shows_nothing(q: Point, area: Crop, flip: Flip)
    requires
        area.size.x == 0 || area.size.y == 0,
    ensures
        fixed_origin(q, area, flip) is None,
{
}

} // verus!
