//! Ordered lists of transforms: the extent they make of a copy rectangle,
//! and the way back from a position of the transformed rectangle to the
//! position it came from.
//!
//! The transforms of a list are applied first to last. A position is taken
//! back last to first, each step given the extent of the space the position
//! lives in at that depth.

use crate::geometry::{Point, Size};
use crate::transform::{lemma_unapply_in_range, Transform};
use vstd::prelude::*;

verus! {

/// The extent of a rectangle of extent `copy_size` after all of `ts`, applied
/// in order.
pub open spec fn spec_transformed_size(copy_size: Size, ts: Seq<Transform>) -> Size
    decreases ts.len(),
{
    if ts.len() == 0 {
        copy_size
    } else {
        Transform::spec_apply_size(spec_transformed_size(copy_size, ts.drop_last()), ts.last())
    }
}

/// Whether every extent on the way from `copy_size` through `ts` fits the
/// coordinate type.
pub open spec fn chain_fits(copy_size: Size, ts: Seq<Transform>) -> bool
    decreases ts.len(),
{
    ts.len() == 0 || (chain_fits(copy_size, ts.drop_last()) && ts.last().size_fits(
        spec_transformed_size(copy_size, ts.drop_last()),
    ))
}

/// Whether every transform of the list can be undone.
pub open spec fn all_invertible(ts: Seq<Transform>) -> bool {
    forall|i: int| 0 <= i < ts.len() ==> (#[trigger] ts[i]).invertible()
}

/// A position and the extent of its space, taken back through `ts` from the
/// last transform to the first.
pub open spec fn spec_unapply_all(state: (Point, Size), ts: Seq<Transform>) -> (Point, Size)
    decreases ts.len(),
{
    if ts.len() == 0 {
        state
    } else {
        spec_unapply_all(Transform::spec_unapply(state, ts.last()), ts.drop_last())
    }
}

/// The position of the copy rectangle that `pt`, a position of the
/// transformed rectangle, shows.
pub open spec fn spec_source_position(pt: Point, copy_size: Size, ts: Seq<Transform>) -> Point {
    spec_unapply_all((pt, spec_transformed_size(copy_size, ts)), ts).0
}

/// The extent of a rectangle of extent `copy_size` after all `transforms`.
pub fn transformed_size(copy_size: Size, transforms: &[Transform]) -> (r: Size)
    requires
        chain_fits(copy_size, transforms@),
    ensures
        r == spec_transformed_size(copy_size, transforms@),
{
    let mut current = copy_size;
    let mut i: usize = 0;
    while i < transforms.len()
        invariant
            i <= transforms.len(),
            chain_fits(copy_size, transforms@),
            current == spec_transformed_size(copy_size, transforms@.take(i as int)),
        decreases transforms.len() - i,
    {
        proof {
            lemma_chain_fits_prefix(copy_size, transforms@, i as int + 1);
            assert(transforms@.take(i as int + 1).drop_last() == transforms@.take(i as int));
        }
        current = Transform::apply_size(current, &transforms[i]);
        i += 1;
    }
    assert(transforms@.take(i as int) == transforms@);
    current
}

/// `transformed_size`, but `None` where an extent on the way would not fit
/// the coordinate type.
pub fn checked_transformed_size(copy_size: Size, transforms: &[Transform]) -> (r: Option<Size>)
    ensures
        r is Some <==> chain_fits(copy_size, transforms@),
        r is Some ==> r->0 == spec_transformed_size(copy_size, transforms@),
{
    let mut current = copy_size;
    let mut i: usize = 0;
    while i < transforms.len()
        invariant
            i <= transforms.len(),
            chain_fits(copy_size, transforms@.take(i as int)),
            current == spec_transformed_size(copy_size, transforms@.take(i as int)),
        decreases transforms.len() - i,
    {
        assert(transforms@.take(i as int + 1).drop_last() == transforms@.take(i as int));
        match Transform::checked_apply_size(current, &transforms[i]) {
            Some(next) => {
                current = next;
            },
            None => {
                proof {
                    if chain_fits(copy_size, transforms@) {
                        lemma_chain_fits_prefix(copy_size, transforms@, i as int + 1);
                    }
                }
                return None;
            },
        }
        i += 1;
    }
    assert(transforms@.take(i as int) == transforms@);
    Some(current)
}

/// Takes a position of the transformed rectangle, and the extent of that
/// rectangle, back through all `transforms`, last to first.
pub fn unapply_all(state: (Point, Size), transforms: &[Transform]) -> (r: (Point, Size))
    requires
        all_invertible(transforms@),
    ensures
        r == spec_unapply_all(state, transforms@),
{
    let mut current = state;
    let mut i: usize = transforms.len();
    assert(transforms@.take(i as int) == transforms@);
    while i > 0
        invariant
            i <= transforms.len(),
            all_invertible(transforms@),
            spec_unapply_all(current, transforms@.take(i as int)) == spec_unapply_all(
                state,
                transforms@,
            ),
        decreases i,
    {
        assert(transforms@.take(i as int).drop_last() == transforms@.take(i as int - 1));
        current = Transform::unapply(current, &transforms[i - 1]);
        i -= 1;
    }
    current
}

/// A list that fits also fits when cut short.
pub proof fn lemma_chain_fits_prefix(copy_size: Size, ts: Seq<Transform>, n: int)
    requires
        chain_fits(copy_size, ts),
        0 <= n <= ts.len(),
    ensures
        chain_fits(copy_size, ts.take(n)),
    decreases ts.len(),
{
    if n == ts.len() {
        assert(ts.take(n) == ts);
    } else {
        lemma_chain_fits_prefix(copy_size, ts.drop_last(), n);
        assert(ts.drop_last().take(n) == ts.take(n));
    }
}

/// Where the transformed rectangle has any position at all, every transform
/// of the list can be undone: a zero scale factor would have emptied it.
pub proof fn lemma_nonempty_invertible(copy_size: Size, ts: Seq<Transform>)
    requires
        chain_fits(copy_size, ts),
        spec_transformed_size(copy_size, ts).x > 0,
        spec_transformed_size(copy_size, ts).y > 0,
    ensures
        all_invertible(ts),
        copy_size.x > 0,
        copy_size.y > 0,
    decreases ts.len(),
{
    if ts.len() > 0 {
        let before = spec_transformed_size(copy_size, ts.drop_last());
        let origin = Point { x: 0, y: 0 };
        lemma_unapply_in_range(origin, before, ts.last());
        lemma_nonempty_invertible(copy_size, ts.drop_last());
        assert forall|i: int| 0 <= i < ts.len() implies (#[trigger] ts[i]).invertible() by {
            if i < ts.len() - 1 {
                assert(ts.drop_last()[i] == ts[i]);
            }
        }
    }
}

/// Taken back through the whole list, a position of the transformed
/// rectangle lands inside the copy rectangle, and the extent that comes out
/// is the copy rectangle's.
pub proof fn lemma_unapply_all_in_range(pt: Point, copy_size: Size, ts: Seq<Transform>)
    requires
        chain_fits(copy_size, ts),
        spec_transformed_size(copy_size, ts).contains(pt),
    ensures
        spec_unapply_all((pt, spec_transformed_size(copy_size, ts)), ts).1 == copy_size,
        copy_size.contains(spec_source_position(pt, copy_size, ts)),
    decreases ts.len(),
{
    if ts.len() > 0 {
        let before = spec_transformed_size(copy_size, ts.drop_last());
        lemma_unapply_in_range(pt, before, ts.last());
        let stepped = Transform::spec_unapply((pt, spec_transformed_size(copy_size, ts)), ts.last());
        lemma_unapply_all_in_range(stepped.0, copy_size, ts.drop_last());
    }
}

/// The extent after two lists in a row is the extent after the second list
/// of the extent after the first.
pub proof fn lemma_transformed_size_concat(copy_size: Size, a: Seq<Transform>, b: Seq<Transform>)
    ensures
        spec_transformed_size(copy_size, a + b) == spec_transformed_size(
            spec_transformed_size(copy_size, a),
            b,
        ),
        chain_fits(copy_size, a + b) <==> chain_fits(copy_size, a) && chain_fits(
            spec_transformed_size(copy_size, a),
            b,
        ),
    decreases b.len(),
{
    if b.len() == 0 {
        assert(a + b == a);
    } else {
        lemma_transformed_size_concat(copy_size, a, b.drop_last());
        assert((a + b).drop_last() == a + b.drop_last());
        assert((a + b).last() == b.last());
    }
}

/// Two lists in a row are undone by undoing the second, then the first.
pub proof fn lemma_unapply_all_concat(state: (Point, Size), a: Seq<Transform>, b: Seq<Transform>)
    ensures
        spec_unapply_all(state, a + b) == spec_unapply_all(spec_unapply_all(state, b), a),
    decreases b.len(),
{
    if b.len() == 0 {
        assert(a + b == a);
    } else {
        lemma_unapply_all_concat(Transform::spec_unapply(state, b.last()), a, b.drop_last());
        assert((a + b).drop_last() == a + b.drop_last());
        assert((a + b).last() == b.last());
    }
}

/// Whether a list of transforms changes nothing: it keeps every extent, and
/// undoing it leaves every position of such an extent where it is.
pub open spec fn is_identity(ts: Seq<Transform>) -> bool {
    &&& forall|s: Size| #[trigger] chain_fits(s, ts) && spec_transformed_size(s, ts) == s
    &&& forall|pt: Point, s: Size|
        s.contains(pt) ==> #[trigger] spec_unapply_all((pt, s), ts) == (pt, s)
}

/// A list that changes nothing can be left off the end of any list: the
/// transformed rectangle and the way back from each of its positions stay
/// the same.
pub proof fn lemma_identity_tail(copy_size: Size, ts: Seq<Transform>, tail: Seq<Transform>)
    requires
        is_identity(tail),
    ensures
        spec_transformed_size(copy_size, ts + tail) == spec_transformed_size(copy_size, ts),
        chain_fits(copy_size, ts + tail) <==> chain_fits(copy_size, ts),
        forall|pt: Point|
            spec_transformed_size(copy_size, ts).contains(pt) ==> #[trigger] spec_source_position(
                pt,
                copy_size,
                ts + tail,
            ) == spec_source_position(pt, copy_size, ts),
{
    let extent = spec_transformed_size(copy_size, ts);
    lemma_transformed_size_concat(copy_size, ts, tail);
    assert(chain_fits(extent, tail));
    assert forall|pt: Point| extent.contains(pt) implies #[trigger] spec_source_position(
        pt,
        copy_size,
        ts + tail,
    ) == spec_source_position(pt, copy_size, ts) by {
        lemma_unapply_all_concat((pt, extent), ts, tail);
        assert(spec_unapply_all((pt, extent), tail) == (pt, extent));
    }
}

/// A flip or a half turn done twice changes nothing.
pub proof fn lemma_twice_is_identity(t: Transform)
    requires
        t is FlipHorizontal || t is FlipVertical || t is FlipBoth || t is Rotate180,
    ensures
        is_identity(seq![t, t]),
{
    let ts = seq![t, t];
    assert(ts.drop_last() == seq![t]);
    assert(seq![t].drop_last() == Seq::<Transform>::empty());
    assert forall|s: Size| #[trigger] chain_fits(s, ts) && spec_transformed_size(s, ts) == s by {
        reveal_with_fuel(chain_fits, 3);
        reveal_with_fuel(spec_transformed_size, 3);
    }
    assert forall|pt: Point, s: Size| s.contains(pt) implies #[trigger] spec_unapply_all(
        (pt, s),
        ts,
    ) == (pt, s) by {
        reveal_with_fuel(spec_unapply_all, 3);
    }
}

/// A quarter turn followed by the opposite quarter turn changes nothing.
pub proof fn lemma_opposite_quarter_turns()
    ensures
        is_identity(seq![Transform::Rotate90Cw, Transform::Rotate90Ccw]),
        is_identity(seq![Transform::Rotate90Ccw, Transform::Rotate90Cw]),
{
    let forth = seq![Transform::Rotate90Cw, Transform::Rotate90Ccw];
    let back = seq![Transform::Rotate90Ccw, Transform::Rotate90Cw];
    assert(forth.drop_last() == seq![Transform::Rotate90Cw]);
    assert(back.drop_last() == seq![Transform::Rotate90Ccw]);
    assert(seq![Transform::Rotate90Cw].drop_last() == Seq::<Transform>::empty());
    assert(seq![Transform::Rotate90Ccw].drop_last() == Seq::<Transform>::empty());
    assert forall|s: Size| #[trigger]
        chain_fits(s, forth) && spec_transformed_size(s, forth) == s by {
        reveal_with_fuel(chain_fits, 3);
        reveal_with_fuel(spec_transformed_size, 3);
    }
    assert forall|s: Size| #[trigger]
        chain_fits(s, back) && spec_transformed_size(s, back) == s by {
        reveal_with_fuel(chain_fits, 3);
        reveal_with_fuel(spec_transformed_size, 3);
    }
    assert forall|pt: Point, s: Size| s.contains(pt) implies #[trigger] spec_unapply_all(
        (pt, s),
        forth,
    ) == (pt, s) by {
        reveal_with_fuel(spec_unapply_all, 3);
    }
    assert forall|pt: Point, s: Size| s.contains(pt) implies #[trigger] spec_unapply_all(
        (pt, s),
        back,
    ) == (pt, s) by {
        reveal_with_fuel(spec_unapply_all, 3);
    }
}

/// Four clockwise quarter turns change nothing, and neither do four
/// counter-clockwise ones.
pub proof fn lemma_four_quarter_turns(t: Transform)
    requires
        t is Rotate90Cw || t is Rotate90Ccw,
    ensures
        is_identity(seq![t, t, t, t]),
{
    let ts = seq![t, t, t, t];
    assert(ts.drop_last() == seq![t, t, t]);
    assert(seq![t, t, t].drop_last() == seq![t, t]);
    assert(seq![t, t].drop_last() == seq![t]);
    assert(seq![t].drop_last() == Seq::<Transform>::empty());
    assert forall|s: Size| #[trigger] chain_fits(s, ts) && spec_transformed_size(s, ts) == s by {
        reveal_with_fuel(chain_fits, 5);
        reveal_with_fuel(spec_transformed_size, 5);
    }
    assert forall|pt: Point, s: Size| s.contains(pt) implies #[trigger] spec_unapply_all(
        (pt, s),
        ts,
    ) == (pt, s) by {
        reveal_with_fuel(spec_unapply_all, 5);
    }
}

} // verus!
