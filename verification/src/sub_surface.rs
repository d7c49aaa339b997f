//! A window onto a rectangular part of another surface.

use crate::geometry::{Point, Size};
use crate::surface::{Surface, SurfaceMut};
use core::marker::PhantomData;
use vstd::prelude::*;

verus! {

/// A surface that only uses a rectangular part of another surface.
///
/// Positions are local to the window: `(0, 0)` is the inner surface's
/// position `offset`. The window has a value where the position lies inside
/// the window's extent and the inner surface has a value at the position
/// moved by `offset`; the window is not cut down to the inner surface.
#[derive(Copy, Debug, PartialEq, Eq)]
pub struct SubSurface<S, Item> {
    surface: S,
    offset: Point,
    size: Size,
    marker: PhantomData<Item>,
}

impl<S, Item> SubSurface<S, Item> {
    /// The inner surface.
    pub closed spec fn spec_inner(&self) -> S {
        self.surface
    }

    /// Position of the window on the inner surface.
    pub closed spec fn spec_offset(&self) -> Point {
        self.offset
    }

    /// Extent of the window.
    pub closed spec fn spec_extent(&self) -> Size {
        self.size
    }

    /// The inner position that the local position `pt` stands for, where
    /// `pt` lies inside the window and the moved position fits the coordinate
    /// type.
    pub open spec fn spec_inner_position(&self, pt: Point) -> Option<Point> {
        if self.spec_extent().contains(pt) && pt.x + self.spec_offset().x <= u32::MAX && pt.y
            + self.spec_offset().y <= u32::MAX {
            Some(
                Point {
                    x: (pt.x + self.spec_offset().x) as u32,
                    y: (pt.y + self.spec_offset().y) as u32,
                },
            )
        } else {
            None
        }
    }

    /// Create a new `SubSurface`.
    #[inline]
    pub fn new(surface: S, offset: Point, size: Size) -> (r: Self)
        ensures
            r.spec_inner() == surface,
            r.spec_offset() == offset,
            r.spec_extent() == size,
    {
        Self { surface, offset, size, marker: PhantomData }
    }

    /// Position of the rectangular part on the inner surface.
    #[inline]
    pub fn offset(&self) -> (r: Point)
        ensures
            r == self.spec_offset(),
    {
        self.offset
    }

    /// Size of the rectangular part (size of the `SubSurface` itself).
    #[inline]
    pub fn size(&self) -> (r: Size)
        ensures
            r == self.spec_extent(),
    {
        self.size
    }

    /// Get the inner surface that was used to construct this.
    #[inline]
    pub fn inner(&self) -> (r: &S)
        ensures
            *r == self.spec_inner(),
    {
        &self.surface
    }

    /// Get the inner surface that was used to construct this.
    ///
    /// The window stays where it is, whatever the caller does to the inner
    /// surface.
    #[inline]
    pub fn inner_mut(&mut self) -> (r: &mut S)
        ensures
            *r == old(self).spec_inner(),
            final(self).spec_inner() == *final(r),
            final(self).spec_offset() == old(self).spec_offset(),
            final(self).spec_extent() == old(self).spec_extent(),
    {
        &mut self.surface
    }

    /// Get the inner surface that was used to construct this.
    #[inline]
    pub fn into_inner(self) -> (r: S)
        ensures
            r == self.spec_inner(),
    {
        self.surface
    }

    /// Moves a local position to the inner surface.
    #[inline]
    fn inner_position(&self, pt: Point) -> (r: Option<Point>)
        ensures
            r == self.spec_inner_position(pt),
    {
        if pt.x < self.size.x && pt.y < self.size.y {
            match (pt.x.checked_add(self.offset.x), pt.y.checked_add(self.offset.y)) {
                (Some(x), Some(y)) => Some(Point { x, y }),
                _ => None,
            }
        } else {
            None
        }
    }
}

impl<S, Item> Clone for SubSurface<S, Item> where S: Clone {
    #[inline]
    fn clone(&self) -> (r: Self)
        ensures
            cloned(self.spec_inner(), r.spec_inner()),
            r.spec_offset() == self.spec_offset(),
            r.spec_extent() == self.spec_extent(),
    {
        Self {
            surface: self.surface.clone(),
            offset: self.offset,
            size: self.size,
            marker: PhantomData,
        }
    }
}

impl<S, Item> Surface<Item> for SubSurface<S, Item> where S: Surface<Item> {
    open spec fn spec_size(&self) -> Size {
        self.spec_extent()
    }

    open spec fn spec_get(&self, pt: Point) -> Option<Item> {
        match self.spec_inner_position(pt) {
            Some(inner_pt) => self.spec_inner().spec_get(inner_pt),
            None => None,
        }
    }

    #[inline]
    fn surface_size(&self) -> (s: Size) {
        self.size
    }

    #[inline]
    fn surface_get(&self, pt: Point) -> (r: Option<&Item>) {
        match self.inner_position(pt) {
            Some(inner_pt) => self.surface.surface_get(inner_pt),
            None => None,
        }
    }
}

impl<S, Item> SurfaceMut<Item> for SubSurface<S, Item> where S: SurfaceMut<Item> {
    #[inline]
    fn surface_get_mut(&mut self, pt: Point) -> (r: Option<&mut Item>)
        ensures
            final(self).spec_offset() == old(self).spec_offset(),
            final(self).spec_extent() == old(self).spec_extent(),
    {
        match self.inner_position(pt) {
            Some(inner_pt) => self.surface.surface_get_mut(inner_pt),
            None => None,
        }
    }
}

} // verus!
