//! The capability contract through which a blit reads and writes a grid,
//! whatever its storage.

use crate::geometry::{Point, Size};
use crate::sub_surface::SubSurface;
use vstd::prelude::*;

verus! {

/// 2D immutable surface trait.
///
/// A surface is modelled by its extent and by the value it holds at each
/// position, if any. No position outside the extent holds a value; a
/// position inside may lack one where the backing store falls short.
pub trait Surface<T> {
    /// Extent of the surface.
    spec fn spec_size(&self) -> Size;

    /// The value held at `pt`, or `None` where the surface has none.
    spec fn spec_get(&self, pt: Point) -> Option<T>;

    /// Surface size.
    fn surface_size(&self) -> (s: Size)
        ensures
            s == self.spec_size(),
    ;

    /// Get a value at (pt.x, pt.y).
    ///
    /// Defined for every position: outside the extent the answer is `None`.
    fn surface_get(&self, pt: Point) -> (r: Option<&T>)
        ensures
            !self.spec_size().contains(pt) ==> r is None,
            match r {
                Some(v) => self.spec_get(pt) == Some(*v),
                None => self.spec_get(pt) is None,
            },
    ;

    /// Create a [`SubSurface`] that only uses a rectangular part of this surface.
    #[inline]
    fn sub_surface(&self, offset: Point, size: Size) -> (r: SubSurface<&Self, T>) where
        Self: Sized,

        ensures
            *r.spec_inner() == *self,
            r.spec_offset() == offset,
            r.spec_extent() == size,
    {
        SubSurface::new(self, offset, size)
    }

    /// Create a [`SubSurface`] that only uses a rectangular part of this surface starting from (offset.x, offset.y).
    #[inline]
    fn offset_surface(&self, offset: Point) -> (r: SubSurface<&Self, T>) where Self: Sized
        requires
            offset.x <= self.spec_size().x,
            offset.y <= self.spec_size().y,
        ensures
            *r.spec_inner() == *self,
            r.spec_offset() == offset,
            r.spec_extent().x == self.spec_size().x - offset.x,
            r.spec_extent().y == self.spec_size().y - offset.y,
    {
        let sur_size = self.surface_size();
        SubSurface::new(self, offset, Size { x: sur_size.x - offset.x, y: sur_size.y - offset.y })
    }

    /// Create a [`SubSurface`] that only uses a rectangular part of this surface.
    ///
    /// The window holds the borrow: what is written through the window is
    /// written to this surface.
    #[inline]
    fn sub_surface_mut(&mut self, offset: Point, size: Size) -> (r: SubSurface<&mut Self, T>) where
        Self: Sized,

        ensures
            *r.spec_inner() == *old(self),
            *final(r.spec_inner()) == *final(self),
            r.spec_offset() == offset,
            r.spec_extent() == size,
    {
        SubSurface::new(self, offset, size)
    }

    /// Create a [`SubSurface`] that only uses a rectangular part of this surface starting from (offset.x, offset.y).
    ///
    /// The window holds the borrow: what is written through the window is
    /// written to this surface.
    #[inline]
    fn offset_surface_mut(&mut self, offset: Point) -> (r: SubSurface<&mut Self, T>) where
        Self: Sized,

        requires
            offset.x <= (*old(self)).spec_size().x,
            offset.y <= (*old(self)).spec_size().y,
        ensures
            *r.spec_inner() == *old(self),
            *final(r.spec_inner()) == *final(self),
            r.spec_offset() == offset,
            r.spec_extent().x == (*old(self)).spec_size().x - offset.x,
            r.spec_extent().y == (*old(self)).spec_size().y - offset.y,
    {
        let sur_size = (*self).surface_size();
        SubSurface::new(self, offset, Size { x: sur_size.x - offset.x, y: sur_size.y - offset.y })
    }

    /// Create a [`SubSurface`] that only uses a rectangular part of this surface.
    #[inline]
    fn into_sub_surface(self, offset: Point, size: Size) -> (r: SubSurface<Self, T>) where
        Self: Sized,

        ensures
            r.spec_inner() == self,
            r.spec_offset() == offset,
            r.spec_extent() == size,
    {
        SubSurface::new(self, offset, size)
    }

    /// Create a [`SubSurface`] that only uses a rectangular part of this surface starting from (offset.x, offset.y).
    #[inline]
    fn into_offset_surface(self, offset: Point) -> (r: SubSurface<Self, T>) where Self: Sized
        requires
            offset.x <= self.spec_size().x,
            offset.y <= self.spec_size().y,
        ensures
            r.spec_inner() == self,
            r.spec_offset() == offset,
            r.spec_extent().x == self.spec_size().x - offset.x,
            r.spec_extent().y == self.spec_size().y - offset.y,
    {
        let sur_size = self.surface_size();
        SubSurface::new(self, offset, Size { x: sur_size.x - offset.x, y: sur_size.y - offset.y })
    }
}

/// 2D mutable surface trait.
pub trait SurfaceMut<T>: Surface<T> {
    /// Get a mutable value at (pt.x, pt.y).
    ///
    /// Whatever the caller writes through the returned reference becomes the
    /// value at `pt`; the extent and every other position stay as they were.
    fn surface_get_mut(&mut self, pt: Point) -> (r: Option<&mut T>)
        ensures
            (*final(self)).spec_size() == (*old(self)).spec_size(),
            !(*old(self)).spec_size().contains(pt) ==> r is None,
            match r {
                Some(v) => (*old(self)).spec_get(pt) == Some(*v) && (*final(self)).spec_get(pt) == Some(
                    *final(v),
                ),
                None => (*old(self)).spec_get(pt) is None && (*final(self)).spec_get(pt) is None,
            },
            forall|q: Point| q != pt ==> (*final(self)).spec_get(q) == (*old(self)).spec_get(q),
    ;
}

impl<S, T> Surface<T> for &S where S: Surface<T> {
    open spec fn spec_size(&self) -> Size {
        (**self).spec_size()
    }

    open spec fn spec_get(&self, pt: Point) -> Option<T> {
        (**self).spec_get(pt)
    }

    #[inline]
    fn surface_size(&self) -> (s: Size) {
        (**self).surface_size()
    }

    #[inline]
    fn surface_get(&self, pt: Point) -> (r: Option<&T>) {
        (**self).surface_get(pt)
    }
}

impl<S, T> Surface<T> for &mut S where S: Surface<T> {
    open spec fn spec_size(&self) -> Size {
        (**self).spec_size()
    }

    open spec fn spec_get(&self, pt: Point) -> Option<T> {
        (**self).spec_get(pt)
    }

    #[inline]
    fn surface_size(&self) -> (s: Size) {
        (**self).surface_size()
    }

    #[inline]
    fn surface_get(&self, pt: Point) -> (r: Option<&T>) {
        (**self).surface_get(pt)
    }
}

impl<S, T> SurfaceMut<T> for &mut S where S: SurfaceMut<T> {
    #[inline]
    fn surface_get_mut(&mut self, pt: Point) -> (r: Option<&mut T>) {
        (**self).surface_get_mut(pt)
    }
}

} // verus!
