//! Blitting: copying a rectangle of one surface onto another through an
//! ordered list of transforms.
//!
//! The rectangle of extent `copy_size` is first transformed, then placed on
//! the destination at `dest_pos`. Each destination position under the placed
//! rectangle is traced back to a position of the copy rectangle, which is
//! moved by `src_pos` to find the source value. A position that either
//! surface lacks is skipped.

use crate::chain::{
    chain_fits, is_identity, lemma_four_quarter_turns, lemma_identity_tail,
    lemma_nonempty_invertible, lemma_opposite_quarter_turns, lemma_twice_is_identity,
    lemma_unapply_all_in_range,
    spec_source_position, spec_transformed_size, spec_unapply_all, transformed_size,
    unapply_all,
};
use crate::geometry::{offset_point, spec_offset_point, Point, Size};
use crate::surface::{Surface, SurfaceMut};
use crate::transform::Transform;
use vstd::prelude::*;

verus! {

/// The position of a rectangle of extent `extent`, placed at `dest_pos`,
/// that lies over the destination position `q`; `None` where the rectangle
/// does not reach `q`.
pub open spec fn rect_position(q: Point, dest_pos: Point, extent: Size) -> Option<Point> {
    if dest_pos.x <= q.x && q.x - dest_pos.x < extent.x && dest_pos.y <= q.y && q.y - dest_pos.y
        < extent.y {
        Some(Point { x: (q.x - dest_pos.x) as u32, y: (q.y - dest_pos.y) as u32 })
    } else {
        None
    }
}

/// The position of the copy rectangle that a blit shows at the destination
/// position `q`; `None` where the placed rectangle does not reach `q`.
pub open spec fn blit_origin(
    q: Point,
    dest_pos: Point,
    copy_size: Size,
    ts: Seq<Transform>,
) -> Option<Point> {
    match rect_position(q, dest_pos, spec_transformed_size(copy_size, ts)) {
        Some(p) => Some(spec_source_position(p, copy_size, ts)),
        None => None,
    }
}

/// The source value that a blit brings to the destination position `q`;
/// `None` where the placed rectangle does not reach `q` or the source has no
/// value at the position read.
pub open spec fn blit_source<S, Src: Surface<S>>(
    src: &Src,
    q: Point,
    dest_pos: Point,
    src_pos: Point,
    copy_size: Size,
    ts: Seq<Transform>,
) -> Option<S> {
    match blit_origin(q, dest_pos, copy_size, ts) {
        Some(u) => src.spec_get(spec_offset_point(u, src_pos)),
        None => None,
    }
}

/// Whether the loops of a blit, standing at column `ix` of row `iy`, have
/// already been at `p`.
pub open spec fn passed(p: Point, ix: int, iy: int) -> bool {
    p.y < iy || (p.y == iy && p.x < ix)
}

/// Blit part of one surface to another (generalized function).
///
/// `func` is called for each pair of values, the last argument is the
/// value's position inside the copy rectangle. The transforms are done in
/// order.
///
/// For every destination position under the placed rectangle where both the
/// destination and the source hold a value, the destination afterwards holds
/// what one call of `func` made of its value. Every other position keeps its
/// value.
///
/// The extents on the way through the transforms must fit `u32`
/// (`checked_transformed_size` tells), and `func` must accept every pair of
/// values that the blit brings together.
pub fn blit_with<D, S>(
    dest: &mut impl SurfaceMut<D>,
    dest_pos: Point,
    src: &impl Surface<S>,
    src_pos: Point,
    copy_size: Size,
    transforms: &[Transform],
    mut func: impl FnMut(&mut D, &S, Point),
)
    requires
        chain_fits(copy_size, transforms@),
        forall|q: Point, r: &mut D, s: S, u: Point|
            #![trigger (*old(dest)).spec_get(q), call_requires(func, (r, &s, u))]
            blit_origin(q, dest_pos, copy_size, transforms@) == Some(u) && (*old(dest)).spec_get(q)
                == Some(*r) && src.spec_get(spec_offset_point(u, src_pos)) == Some(s)
                ==> call_requires(func, (r, &s, u)),
    ensures
        (*final(dest)).spec_size() == (*old(dest)).spec_size(),
        forall|q: Point|
            #![trigger (*final(dest)).spec_get(q)]
            #![trigger (*old(dest)).spec_get(q)]
            match blit_origin(q, dest_pos, copy_size, transforms@) {
                Some(u) => match (
                    (*old(dest)).spec_get(q),
                    src.spec_get(spec_offset_point(u, src_pos)),
                ) {
                    (Some(d), Some(s)) => exists|r: &mut D|
                        #![trigger call_ensures(func, (r, &s, u), ())]
                        *r == d && (*final(dest)).spec_get(q) == Some(*final(r)) && call_ensures(
                            func,
                            (r, &s, u),
                            (),
                        ),
                    _ => (*final(dest)).spec_get(q) == (*old(dest)).spec_get(q),
                },
                None => (*final(dest)).spec_get(q) == (*old(dest)).spec_get(q),
            },
{
    let ghost start = *dest;
    let ghost begun = func;
    let extent = transformed_size(copy_size, transforms);
    let mut iy: u32 = 0;
    while iy < extent.y
        invariant
            iy <= extent.y,
            chain_fits(copy_size, transforms@),
            extent == spec_transformed_size(copy_size, transforms@),
            func == begun,
            forall|q: Point, r: &mut D, s: S, u: Point|
                #![trigger start.spec_get(q), call_requires(begun, (r, &s, u))]
                blit_origin(q, dest_pos, copy_size, transforms@) == Some(u) && start.spec_get(q)
                    == Some(*r) && src.spec_get(spec_offset_point(u, src_pos)) == Some(s)
                    ==> call_requires(begun, (r, &s, u)),
            (*dest).spec_size() == start.spec_size(),
            forall|q: Point|
                #![trigger (*dest).spec_get(q)]
                #![trigger start.spec_get(q)]
                match rect_position(q, dest_pos, extent) {
                    Some(p) => if passed(p, 0, iy as int) {
                        match (
                            start.spec_get(q),
                            src.spec_get(
                                spec_offset_point(
                                    spec_source_position(p, copy_size, transforms@),
                                    src_pos,
                                ),
                            ),
                        ) {
                            (Some(d), Some(s)) => exists|r: &mut D|
                                #![trigger call_ensures(begun, (r, &s, spec_source_position(p, copy_size, transforms@)), ())]
                                *r == d && (*dest).spec_get(q) == Some(*final(r)) && call_ensures(
                                    begun,
                                    (r, &s, spec_source_position(p, copy_size, transforms@)),
                                    (),
                                ),
                            _ => (*dest).spec_get(q) == start.spec_get(q),
                        }
                    } else {
                        (*dest).spec_get(q) == start.spec_get(q)
                    },
                    None => (*dest).spec_get(q) == start.spec_get(q),
                },
        decreases extent.y - iy,
    {
        let mut ix: u32 = 0;
        while ix < extent.x
            invariant
                ix <= extent.x,
                iy < extent.y,
                chain_fits(copy_size, transforms@),
                extent == spec_transformed_size(copy_size, transforms@),
                func == begun,
                forall|q: Point, r: &mut D, s: S, u: Point|
                #![trigger start.spec_get(q), call_requires(begun, (r, &s, u))]
                blit_origin(q, dest_pos, copy_size, transforms@) == Some(u) && start.spec_get(q)
                    == Some(*r) && src.spec_get(spec_offset_point(u, src_pos)) == Some(s)
                    ==> call_requires(begun, (r, &s, u)),
                (*dest).spec_size() == start.spec_size(),
                forall|q: Point|
                    #![trigger (*dest).spec_get(q)]
                    #![trigger start.spec_get(q)]
                #![trigger start.spec_get(q)]
                    match rect_position(q, dest_pos, extent) {
                        Some(p) => if passed(p, ix as int, iy as int) {
                            match (
                                start.spec_get(q),
                                src.spec_get(
                                    spec_offset_point(
                                        spec_source_position(p, copy_size, transforms@),
                                        src_pos,
                                    ),
                                ),
                            ) {
                                (Some(d), Some(s)) => exists|r: &mut D|
                                    #![trigger call_ensures(begun, (r, &s, spec_source_position(p, copy_size, transforms@)), ())]
                                    *r == d && (*dest).spec_get(q) == Some(*final(r)) && call_ensures(
                                        begun,
                                        (r, &s, spec_source_position(p, copy_size, transforms@)),
                                        (),
                                    ),
                                _ => (*dest).spec_get(q) == start.spec_get(q),
                            }
                        } else {
                            (*dest).spec_get(q) == start.spec_get(q)
                        },
                        None => (*dest).spec_get(q) == start.spec_get(q),
                    },
            decreases extent.x - ix,
        {
            let here = Point { x: ix, y: iy };
            let dest_target = offset_point(here, dest_pos);
            proof {
                lemma_nonempty_invertible(copy_size, transforms@);
            }
            match dest.surface_get_mut(dest_target) {
                Some(cell) => {
                    let origin = unapply_all((here, extent), transforms).0;
                    let src_target = offset_point(origin, src_pos);
                    match src.surface_get(src_target) {
                        Some(value) => {
                            func(cell, value, origin);
                        },
                        None => {},
                    }
                },
                None => {},
            }
            ix += 1;
        }
        iy += 1;
    }
}

/// Blit part of one surface to another, cloning the values.
///
/// The transforms are done in order. Every destination position that holds a
/// value and is brought one from the source holds a clone of the source
/// value afterwards; every other position keeps its value.
#[inline]
pub fn blit<T: Clone>(
    dest: &mut impl SurfaceMut<T>,
    dest_pos: Point,
    src: &impl Surface<T>,
    src_pos: Point,
    copy_size: Size,
    transforms: &[Transform],
)
    requires
        chain_fits(copy_size, transforms@),
    ensures
        (*final(dest)).spec_size() == (*old(dest)).spec_size(),
        forall|q: Point|
            #![trigger (*final(dest)).spec_get(q)]
            #![trigger (*old(dest)).spec_get(q)]
            match (
                (*old(dest)).spec_get(q),
                blit_source(src, q, dest_pos, src_pos, copy_size, transforms@),
            ) {
                (Some(_), Some(s)) => (*final(dest)).spec_get(q) is Some && cloned(
                    s,
                    (*final(dest)).spec_get(q)->0,
                ),
                _ => (*final(dest)).spec_get(q) == (*old(dest)).spec_get(q),
            },
{
    let copy_cell = |d: &mut T, s: &T, _p: Point|
        ensures
            cloned(*s, *final(d)),
        {
            *d = s.clone();
        };
    blit_with(dest, dest_pos, src, src_pos, copy_size, transforms, copy_cell);
}

/// Blit part of one surface to another, converting the values.
///
/// The transforms are done in order. Every destination position that holds a
/// value and is brought one from the source holds afterwards what `D::from`
/// makes of a clone of the source value; every other position keeps its
/// value.
#[inline]
pub fn blit_convert<D: From<S>, S: Clone>(
    dest: &mut impl SurfaceMut<D>,
    dest_pos: Point,
    src: &impl Surface<S>,
    src_pos: Point,
    copy_size: Size,
    transforms: &[Transform],
)
    requires
        chain_fits(copy_size, transforms@),
    ensures
        (*final(dest)).spec_size() == (*old(dest)).spec_size(),
        forall|q: Point|
            #![trigger (*final(dest)).spec_get(q)]
            #![trigger (*old(dest)).spec_get(q)]
            match (
                (*old(dest)).spec_get(q),
                blit_source(src, q, dest_pos, src_pos, copy_size, transforms@),
            ) {
                (Some(_), Some(s)) => (*final(dest)).spec_get(q) is Some && exists|c: S|
                    #![trigger cloned(s, c)]
                    #![trigger call_ensures(D::from, (c,), (*final(dest)).spec_get(q)->0)]
                    cloned(s, c) && call_ensures(D::from, (c,), (*final(dest)).spec_get(q)->0),
                _ => (*final(dest)).spec_get(q) == (*old(dest)).spec_get(q),
            },
{
    let convert_cell = |d: &mut D, s: &S, _p: Point|
        ensures
            exists|c: S|
                #![trigger cloned(*s, c)]
                #![trigger call_ensures(D::from, (c,), *final(d))]
                cloned(*s, c) && call_ensures(D::from, (c,), *final(d)),
        {
            *d = D::from(s.clone());
        };
    blit_with(dest, dest_pos, src, src_pos, copy_size, transforms, convert_cell);
}

/// Blit the whole of one surface to another, cloning the values.
///
/// The copy rectangle is the source's extent; the rest is `blit`.
#[inline]
pub fn blit_whole<T: Clone, Src: Surface<T>>(
    dest: &mut impl SurfaceMut<T>,
    dest_pos: Point,
    src: &Src,
    src_pos: Point,
    transforms: &[Transform],
)
    requires
        chain_fits(src.spec_size(), transforms@),
    ensures
        (*final(dest)).spec_size() == (*old(dest)).spec_size(),
        forall|q: Point|
            #![trigger (*final(dest)).spec_get(q)]
            #![trigger (*old(dest)).spec_get(q)]
            match (
                (*old(dest)).spec_get(q),
                blit_source(src, q, dest_pos, src_pos, src.spec_size(), transforms@),
            ) {
                (Some(_), Some(s)) => (*final(dest)).spec_get(q) is Some && cloned(
                    s,
                    (*final(dest)).spec_get(q)->0,
                ),
                _ => (*final(dest)).spec_get(q) == (*old(dest)).spec_get(q),
            },
{
    let copy_size = src.surface_size();
    blit(dest, dest_pos, src, src_pos, copy_size, transforms);
}

/// Whatever position a blit shows at a destination position, it is a
/// position of the copy rectangle.
pub proof fn lemma_blit_origin_in_copy_rectangle(
    q: Point,
    dest_pos: Point,
    copy_size: Size,
    ts: Seq<Transform>,
)
    requires
        chain_fits(copy_size, ts),
        blit_origin(q, dest_pos, copy_size, ts) is Some,
    ensures
        copy_size.contains(blit_origin(q, dest_pos, copy_size, ts)->0),
{
    let p = rect_position(q, dest_pos, spec_transformed_size(copy_size, ts))->0;
    lemma_unapply_all_in_range(p, copy_size, ts);
}

/// Transforms that change nothing, put at the end of a list, do not change
/// what a blit shows at any destination position.
pub proof fn lemma_blit_identity_tail(
    q: Point,
    dest_pos: Point,
    copy_size: Size,
    ts: Seq<Transform>,
    tail: Seq<Transform>,
)
    requires
        is_identity(tail),
    ensures
        chain_fits(copy_size, ts + tail) <==> chain_fits(copy_size, ts),
        blit_origin(q, dest_pos, copy_size, ts + tail) == blit_origin(q, dest_pos, copy_size, ts),
{
    lemma_identity_tail(copy_size, ts, tail);
}

/// A flip or a half turn done twice in a row shows what a blit without the
/// two shows: the arrangement as it was.
pub proof fn lemma_blit_twice(
    q: Point,
    dest_pos: Point,
    copy_size: Size,
    ts: Seq<Transform>,
    t: Transform,
)
    requires
        t is FlipHorizontal || t is FlipVertical || t is FlipBoth || t is Rotate180,
    ensures
        chain_fits(copy_size, ts + seq![t, t]) <==> chain_fits(copy_size, ts),
        blit_origin(q, dest_pos, copy_size, ts + seq![t, t]) == blit_origin(
            q,
            dest_pos,
            copy_size,
            ts,
        ),
{
    lemma_twice_is_identity(t);
    lemma_blit_identity_tail(q, dest_pos, copy_size, ts, seq![t, t]);
}

/// A quarter turn followed by the opposite one, and four quarter turns the
/// same way, show what a blit without them shows: the arrangement as it was.
pub proof fn lemma_blit_quarter_turns(
    q: Point,
    dest_pos: Point,
    copy_size: Size,
    ts: Seq<Transform>,
)
    ensures
        blit_origin(
            q,
            dest_pos,
            copy_size,
            ts + seq![Transform::Rotate90Cw, Transform::Rotate90Ccw],
        ) == blit_origin(q, dest_pos, copy_size, ts),
        blit_origin(
            q,
            dest_pos,
            copy_size,
            ts + seq![Transform::Rotate90Ccw, Transform::Rotate90Cw],
        ) == blit_origin(q, dest_pos, copy_size, ts),
        blit_origin(
            q,
            dest_pos,
            copy_size,
            ts + seq![
                Transform::Rotate90Cw,
                Transform::Rotate90Cw,
                Transform::Rotate90Cw,
                Transform::Rotate90Cw,
            ],
        ) == blit_origin(q, dest_pos, copy_size, ts),
        blit_origin(
            q,
            dest_pos,
            copy_size,
            ts + seq![
                Transform::Rotate90Ccw,
                Transform::Rotate90Ccw,
                Transform::Rotate90Ccw,
                Transform::Rotate90Ccw,
            ],
        ) == blit_origin(q, dest_pos, copy_size, ts),
{
    lemma_opposite_quarter_turns();
    lemma_four_quarter_turns(Transform::Rotate90Cw);
    lemma_four_quarter_turns(Transform::Rotate90Ccw);
    lemma_blit_identity_tail(
        q,
        dest_pos,
        copy_size,
        ts,
        seq![Transform::Rotate90Cw, Transform::Rotate90Ccw],
    );
    lemma_blit_identity_tail(
        q,
        dest_pos,
        copy_size,
        ts,
        seq![Transform::Rotate90Ccw, Transform::Rotate90Cw],
    );
    lemma_blit_identity_tail(
        q,
        dest_pos,
        copy_size,
        ts,
        seq![
            Transform::Rotate90Cw,
            Transform::Rotate90Cw,
            Transform::Rotate90Cw,
            Transform::Rotate90Cw,
        ],
    );
    lemma_blit_identity_tail(
        q,
        dest_pos,
        copy_size,
        ts,
        seq![
            Transform::Rotate90Ccw,
            Transform::Rotate90Ccw,
            Transform::Rotate90Ccw,
            Transform::Rotate90Ccw,
        ],
    );
}

/// An up-scale by `x` and `y` of a copy rectangle `w` wide and `h` high
/// reaches exactly the `w * x` by `h * y` destination positions from
/// `dest_pos` on, and shows at each the source position of its block: the
/// block of `x * y` positions that starts at `(i * x, j * y)` shows `(i, j)`.
pub proof fn lemma_blit_up_scale(q: Point, dest_pos: Point, copy_size: Size, x: u32, y: u32)
    requires
        x > 0,
        y > 0,
        copy_size.x * x <= u32::MAX,
        copy_size.y * y <= u32::MAX,
    ensures
        chain_fits(copy_size, seq![Transform::UpScale { x, y }]),
        spec_transformed_size(copy_size, seq![Transform::UpScale { x, y }]) == (Size {
            x: (copy_size.x * x) as u32,
            y: (copy_size.y * y) as u32,
        }),
        blit_origin(q, dest_pos, copy_size, seq![Transform::UpScale { x, y }]) == (if dest_pos.x
            <= q.x < dest_pos.x + copy_size.x * x && dest_pos.y <= q.y < dest_pos.y + copy_size.y
            * y {
            Some(
                Point {
                    x: ((q.x - dest_pos.x) / (x as int)) as u32,
                    y: ((q.y - dest_pos.y) / (y as int)) as u32,
                },
            )
        } else {
            None
        }),
{
    let ts = seq![Transform::UpScale { x, y }];
    assert(ts.drop_last() == Seq::<Transform>::empty());
    reveal_with_fuel(chain_fits, 2);
    reveal_with_fuel(spec_transformed_size, 2);
    reveal_with_fuel(spec_unapply_all, 2);
}

/// Under an up-scale by `x` and `y`, every position of the block that
/// belongs to the source position `cell` lies in the transformed rectangle
/// and shows `cell`.
pub proof fn lemma_up_scale_block(copy_size: Size, x: u32, y: u32, cell: Point, dx: u32, dy: u32)
    requires
        copy_size.x * x <= u32::MAX,
        copy_size.y * y <= u32::MAX,
        copy_size.contains(cell),
        dx < x,
        dy < y,
    ensures
        cell.x * x + dx < copy_size.x * x,
        cell.y * y + dy < copy_size.y * y,
        spec_source_position(
            Point { x: (cell.x * x + dx) as u32, y: (cell.y * y + dy) as u32 },
            copy_size,
            seq![Transform::UpScale { x, y }],
        ) == cell,
{
    let ts = seq![Transform::UpScale { x, y }];
    assert(ts.drop_last() == Seq::<Transform>::empty());
    reveal_with_fuel(spec_transformed_size, 2);
    reveal_with_fuel(spec_unapply_all, 2);
    lemma_block_index(cell.x as int, dx as int, x as int, copy_size.x as int);
    lemma_block_index(cell.y as int, dy as int, y as int, copy_size.y as int);
}

/// The `d`-th position of the block number `i`, of blocks `factor` long,
/// belongs to block `i`, and lies before the end of `count` blocks.
proof fn lemma_block_index(i: int, d: int, factor: int, count: int)
    requires
        0 <= i < count,
        0 <= d < factor,
    ensures
        (i * factor + d) / factor == i,
        i * factor + d < count * factor,
{
    vstd::arithmetic::div_mod::lemma_fundamental_div_mod_converse_div(i * factor + d, factor, i, d);
    assert(i * factor + factor <= count * factor) by (nonlinear_arith)
        requires
            i + 1 <= count,
            0 < factor,
    ;
}

} // verus!
