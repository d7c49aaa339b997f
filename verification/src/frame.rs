//! A frame of bytes, four to a pixel, seen as a surface of RGBA pixels.
//!
//! The bytes are not copied: the `rgb` crate reinterprets them in place,
//! and the surface finds the pixel of a position in the reinterpreted
//! slice, row by row.

use crate::generic_surface::{cell_index, lemma_cell_index_bound, lemma_cell_index_distinct};
use crate::geometry::{Point, Size};
use crate::store::{Store, StoreMut};
use crate::surface::{Surface, SurfaceMut};
use rgb::AsPixels;
use vstd::prelude::*;

verus! {

/// The pixel type of the `rgb` crate. Its components are not looked at
/// here: a pixel is carried from one place to another as a whole.
#[verifier::external_type_specification]
#[verifier::external_body]
#[verifier::reject_recursive_types(T)]
#[verifier::reject_recursive_types(A)]
pub struct ExRgba<T, A>(rgb::RGBA<T, A>);

/// The pixels that `rgb`'s `as_pixels` makes of a run of bytes: each four
/// bytes in a row are one pixel, and bytes left over at the end belong to
/// none.
pub uninterp spec fn spec_rgba_pixels(bytes: Seq<u8>) -> Seq<rgb::RGBA<u8, u8>>;

/// `AsPixels::as_pixels` of the `rgb` crate, on bytes, for RGBA pixels.
///
/// Assumed, not proved: the result depends on the bytes alone and has a
/// quarter as many pixels as there are bytes, rounded down.
#[verifier::external_body]
fn rgba_pixels(bytes: &[u8]) -> (pixels: &[rgb::RGBA<u8, u8>])
    ensures
        pixels@ == spec_rgba_pixels(bytes@),
        pixels@.len() == bytes@.len() / 4,
{
    bytes.as_pixels()
}

/// `AsPixels::as_pixels_mut` of the `rgb` crate, on bytes, for RGBA pixels.
///
/// Assumed, not proved: the slice that comes back holds the pixels that
/// `as_pixels` makes of the bytes, over the same memory, so that the bytes
/// afterwards are bytes of which `as_pixels` makes what the caller left in
/// the slice; the number of bytes does not change.
#[verifier::external_body]
fn rgba_pixels_mut(bytes: &mut [u8]) -> (pixels: &mut [rgb::RGBA<u8, u8>])
    ensures
        pixels@ == spec_rgba_pixels(old(bytes)@),
        pixels@.len() == old(bytes)@.len() / 4,
        final(pixels)@ == spec_rgba_pixels(final(bytes)@),
        final(bytes)@.len() == old(bytes)@.len(),
{
    bytes.as_pixels_mut()
}

/// A surface of RGBA pixels over a store of bytes, four bytes to a pixel,
/// row after row.
#[derive(Clone, Copy, Debug, PartialEq, Eq)]
pub struct RgbaFrame<Bytes> {
    bytes: Bytes,
    size: Size,
}

impl<Bytes> RgbaFrame<Bytes> {
    /// The store of bytes.
    pub closed spec fn spec_store(&self) -> Bytes {
        self.bytes
    }

    /// The extent the frame was made with.
    pub closed spec fn spec_extent(&self) -> Size {
        self.size
    }

    /// Get the store of bytes that was used to construct this.
    #[inline]
    pub fn into_inner(self) -> (r: Bytes)
        ensures
            r == self.spec_store(),
    {
        self.bytes
    }
}

impl<Bytes> RgbaFrame<Bytes> where Bytes: Store<u8> {
    /// The pixels of the frame, row after row.
    pub open spec fn spec_pixels(&self) -> Seq<rgb::RGBA<u8, u8>> {
        spec_rgba_pixels(self.spec_store().spec_items())
    }

    /// Construct a new frame.
    ///
    /// Returns `None` unless `bytes` holds four bytes for each position of
    /// `size`, and no more.
    #[inline]
    pub fn new(bytes: Bytes, size: Size) -> (r: Option<Self>)
        ensures
            r is Some <==> bytes.spec_items().len() == 4 * (size.x * size.y),
            r is Some ==> r->0.spec_size() == size && r->0.spec_store() == bytes,
    {
        let len = bytes.items().len();
        assert(size.x * size.y <= 0xffff_ffff * 0xffff_ffff) by (nonlinear_arith)
            requires
                size.x <= 0xffff_ffff,
                size.y <= 0xffff_ffff,
        ;
        if len as u128 == 4 * ((size.x as u128) * (size.y as u128)) {
            Some(Self { bytes, size })
        } else {
            None
        }
    }
}

impl<Bytes> Surface<rgb::RGBA<u8, u8>> for RgbaFrame<Bytes> where Bytes: Store<u8> {
    open spec fn spec_size(&self) -> Size {
        self.spec_extent()
    }

    open spec fn spec_get(&self, pt: Point) -> Option<rgb::RGBA<u8, u8>> {
        if self.spec_size().contains(pt) && cell_index(pt, self.spec_size().x)
            < self.spec_pixels().len() {
            Some(self.spec_pixels()[cell_index(pt, self.spec_size().x)])
        } else {
            None
        }
    }

    #[inline]
    fn surface_size(&self) -> (s: Size) {
        self.size
    }

    #[inline]
    fn surface_get(&self, pt: Point) -> (r: Option<&rgb::RGBA<u8, u8>>) {
        if pt.x < self.size.x && pt.y < self.size.y {
            proof {
                lemma_cell_index_bound(pt, self.size);
            }
            let pixels = rgba_pixels(self.bytes.items());
            let index = pt.y as u64 * self.size.x as u64 + pt.x as u64;
            if index < pixels.len() as u64 {
                Some(&pixels[index as usize])
            } else {
                None
            }
        } else {
            None
        }
    }
}

impl<Bytes> SurfaceMut<rgb::RGBA<u8, u8>> for RgbaFrame<Bytes> where Bytes: StoreMut<u8> {
    #[inline]
    fn surface_get_mut(&mut self, pt: Point) -> (r: Option<&mut rgb::RGBA<u8, u8>>)
        ensures
            final(self).spec_store().spec_items().len() == old(self).spec_store().spec_items().len(),
    {
        if pt.x < self.size.x && pt.y < self.size.y {
            proof {
                lemma_cell_index_bound(pt, self.size);
                assert forall|q: Point| q != pt && self.size.contains(q) implies cell_index(
                    q,
                    self.size.x,
                ) != cell_index(pt, self.size.x) by {
                    lemma_cell_index_distinct(pt, q, self.size);
                }
            }
            let index = pt.y as u64 * self.size.x as u64 + pt.x as u64;
            let pixels = rgba_pixels_mut(self.bytes.items_mut());
            if index < pixels.len() as u64 {
                Some(&mut pixels[index as usize])
            } else {
                None
            }
        } else {
            None
        }
    }
}

} // verus!
