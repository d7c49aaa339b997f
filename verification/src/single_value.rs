//! A surface that shows one value at every position.

use crate::fixed::Buffer;
use crate::geometry::{Point, Size};
use crate::surface::Surface;
use vstd::prelude::*;

verus! {

/// A 'surface' that holds a single value, like a plain-colored rectangle.
///
/// Every position inside the extent reads the stored value. The surface is
/// read-only as a surface: a write to one position would show at all of
/// them. Change `value` itself to recolor the rectangle.
#[derive(Copy, Debug, PartialEq, Eq)]
pub struct SingleValueSurface<T> {
    /// Surface size.
    pub size: Size,
    /// Stored value, likely a color.
    pub value: T,
}

impl<T> SingleValueSurface<T> {
    /// Construct a new surface.
    #[inline]
    pub fn new(value: T, size: Size) -> (r: Self)
        ensures
            r.size == size,
            r.value == value,
    {
        Self { size, value }
    }
}

impl<T: Clone> Clone for SingleValueSurface<T> {
    #[inline]
    fn clone(&self) -> (r: Self)
        ensures
            r.size == self.size,
            cloned(self.value, r.value),
    {
        Self { size: self.size, value: self.value.clone() }
    }
}

impl<T> Surface<T> for SingleValueSurface<T> {
    open spec fn spec_size(&self) -> Size {
        self.size
    }

    open spec fn spec_get(&self, pt: Point) -> Option<T> {
        if self.size.contains(pt) {
            Some(self.value)
        } else {
            None
        }
    }

    #[inline]
    fn surface_size(&self) -> (s: Size) {
        self.size
    }

    #[inline]
    fn surface_get(&self, pt: Point) -> (r: Option<&T>) {
        if pt.x < self.size.x && pt.y < self.size.y {
            Some(&self.value)
        } else {
            None
        }
    }
}

impl<T> Buffer<T> for SingleValueSurface<T> {
    open spec fn spec_width(&self) -> u32 {
        self.size.x
    }

    open spec fn spec_height(&self) -> u32 {
        self.size.y
    }

    open spec fn spec_complete(&self) -> bool {
        true
    }

    open spec fn spec_at(&self, pt: Point) -> T {
        self.value
    }

    #[inline]
    fn width(&self) -> (w: u32) {
        self.size.x
    }

    #[inline]
    fn height(&self) -> (h: u32) {
        self.size.y
    }

    #[inline]
    fn get(&self, x: u32, y: u32) -> (r: &T) {
        &self.value
    }
}

} // verus!
