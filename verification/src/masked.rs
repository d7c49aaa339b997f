//! Blitting that leaves out one value of the source.

use crate::blit::{blit_source, blit_with};
use crate::chain::chain_fits;
use crate::fixed::{
    blit_fixed_with, buffers_crop, fixed_value, spec_extent, Buffer, BufferMut, Flip, Offset,
};
use crate::geometry::{Point, Size};
use crate::surface::{Surface, SurfaceMut};
use crate::transform::Transform;
use vstd::prelude::*;
use vstd::std_specs::cmp::PartialEqSpec;

verus! {

/// Blit part of one surface to another, ignoring the `mask` values.
///
/// The transforms are done in order. A source value equal to `mask` is not
/// copied: the destination position keeps its value. Where nothing is known
/// of `T`'s equality, either outcome is possible.
#[inline]
pub fn blit_masked<T: Clone + PartialEq>(
    dest: &mut impl SurfaceMut<T>,
    dest_pos: Point,
    src: &impl Surface<T>,
    src_pos: Point,
    copy_size: Size,
    transforms: &[Transform],
    mask: &T,
)
    requires
        chain_fits(copy_size, transforms@),
    ensures
        (*final(dest)).spec_size() == (*old(dest)).spec_size(),
        forall|q: Point|
            #![trigger (*final(dest)).spec_get(q)]
            #![trigger (*old(dest)).spec_get(q)]
            match (
                (*old(dest)).spec_get(q),
                blit_source(src, q, dest_pos, src_pos, copy_size, transforms@),
            ) {
                (Some(d), Some(s)) => {
                    ||| {
                        &&& (*final(dest)).spec_get(q) == Some(d)
                        &&& T::obeys_eq_spec() ==> s.eq_spec(mask)
                    }
                    ||| {
                        &&& (*final(dest)).spec_get(q) is Some
                        &&& cloned(s, (*final(dest)).spec_get(q)->0)
                        &&& T::obeys_eq_spec() ==> !s.eq_spec(mask)
                    }
                },
                _ => (*final(dest)).spec_get(q) == (*old(dest)).spec_get(q),
            },
{
    let copy_unmasked = |d: &mut T, s: &T, _p: Point|
        ensures
            ({
                ||| *final(d) == *old(d) && (T::obeys_eq_spec() ==> s.eq_spec(mask))
                ||| cloned(*s, *final(d)) && (T::obeys_eq_spec() ==> !s.eq_spec(mask))
            }),
        {
            if s != mask {
                *d = s.clone();
            }
        };
    blit_with(dest, dest_pos, src, src_pos, copy_size, transforms, copy_unmasked);
}

/// Blit part of one buffer to another, ignoring the `mask` values, at
/// offsets that may be negative.
///
/// A source value equal to `mask` is not copied: the destination position
/// keeps its value. Where nothing is known of `T`'s equality, either
/// outcome is possible.
#[inline]
pub fn blit_fixed_masked<T: Clone + PartialEq>(
    dest: &mut impl BufferMut<T>,
    dest_pos: Offset,
    src: &impl Buffer<T>,
    src_pos: Offset,
    size: Size,
    flip: Flip,
    mask: &T,
)
    requires
        (*old(dest)).spec_complete(),
        src.spec_complete(),
    ensures
        (*final(dest)).spec_complete(),
        spec_extent(&*final(dest)) == spec_extent(&*old(dest)),
        forall|q: Point|
            #![trigger (*final(dest)).spec_at(q)]
            #![trigger (*old(dest)).spec_at(q)]
            spec_extent(&*old(dest)).contains(q) ==> match fixed_value(
                src,
                q,
                buffers_crop(&*old(dest), dest_pos, src, src_pos, size),
                flip,
            ) {
                Some(s) => {
                    ||| {
                        &&& (*final(dest)).spec_at(q) == (*old(dest)).spec_at(q)
                        &&& T::obeys_eq_spec() ==> s.eq_spec(mask)
                    }
                    ||| {
                        &&& cloned(s, (*final(dest)).spec_at(q))
                        &&& T::obeys_eq_spec() ==> !s.eq_spec(mask)
                    }
                },
                None => (*final(dest)).spec_at(q) == (*old(dest)).spec_at(q),
            },
{
    let copy_unmasked = |d: &mut T, s: &T, _p: Point|
        ensures
            ({
                ||| *final(d) == *old(d) && (T::obeys_eq_spec() ==> s.eq_spec(mask))
                ||| cloned(*s, *final(d)) && (T::obeys_eq_spec() ==> !s.eq_spec(mask))
            }),
        {
            if s != mask {
                *d = s.clone();
            }
        };
    blit_fixed_with(dest, dest_pos, src, src_pos, size, flip, copy_unmasked);
}

} // verus!
