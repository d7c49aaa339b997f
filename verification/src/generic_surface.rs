//! A surface laid out row by row over a flat store.

use crate::fixed::{Buffer, BufferMut};
use crate::geometry::{Point, Size};
use crate::store::{Store, StoreMut};
use crate::surface::{Surface, SurfaceMut};
use core::marker::PhantomData;
use core::ops::{Deref, DerefMut};
use vstd::prelude::*;

verus! {

/// Index of `pt` in a row-major store of rows `width` long.
pub open spec fn cell_index(pt: Point, width: u32) -> int {
    pt.y * width + pt.x
}

/// Generic surface with width and height.
///
/// The value at a position is the item of the store at the position's
/// row-major index. A surface made by a constructor is covered: its store
/// has an item for every position of the extent.
#[derive(Copy, Debug, PartialEq, Eq)]
pub struct GenericSurface<Slice, Item> {
    slice: Slice,
    size: Size,
    marker: PhantomData<Item>,
}

impl<Slice, Item> GenericSurface<Slice, Item> {
    /// The underlying store.
    pub closed spec fn spec_store(&self) -> Slice {
        self.slice
    }

    /// The extent the surface was made with.
    pub closed spec fn spec_extent(&self) -> Size {
        self.size
    }
}

impl<Slice, Item> Clone for GenericSurface<Slice, Item> where Slice: Clone {
    #[inline]
    fn clone(&self) -> (r: Self)
        ensures
            r.spec_extent() == self.spec_extent(),
            cloned(self.spec_store(), r.spec_store()),
    {
        Self { slice: self.slice.clone(), size: self.size, marker: PhantomData }
    }
}

impl<Slice, Item> GenericSurface<Slice, Item> where Slice: Store<Item> {
    /// The items of the underlying store, row after row.
    pub open spec fn spec_items(&self) -> Seq<Item> {
        self.spec_store().spec_items()
    }

    /// Whether the store has an item for every position of the extent.
    pub open spec fn covered(&self) -> bool {
        self.spec_size().x * self.spec_size().y <= self.spec_items().len()
    }

    /// Construct a new surface.
    ///
    /// Returns `None` if `slice.len() != size.x * size.y`.
    #[inline]
    pub fn new(slice: Slice, size: Size) -> (r: Option<Self>)
        ensures
            r is Some <==> slice.spec_items().len() == size.x * size.y,
            r is Some ==> r->0.spec_size() == size && r->0.spec_store() == slice && r->0.covered(),
    {
        let len = slice.items().len();
        assert(size.x * size.y <= 0xffff_ffff * 0xffff_ffff) by (nonlinear_arith)
            requires
                size.x <= 0xffff_ffff,
                size.y <= 0xffff_ffff,
        ;
        if len as u64 == (size.x as u64) * (size.y as u64) {
            Some(Self { slice, size, marker: PhantomData })
        } else {
            None
        }
    }

    /// Constructs a new surface.
    ///
    /// Infers the height from slice length and width: the length, cut to 32
    /// bits, divided by the width. Items past the last full row belong to no
    /// position.
    #[inline]
    pub fn new_infer(slice: Slice, width: u32) -> (r: Self)
        requires
            width > 0,
        ensures
            r.spec_size().x == width,
            r.spec_size().y == (slice.spec_items().len() % 0x1_0000_0000) / (width as nat),
            r.spec_store() == slice,
            r.covered(),
    {
        let len = slice.items().len() as u64;
        let low = len & 0xffff_ffff;
        assert(low == len % 0x1_0000_0000) by (bit_vector)
            requires
                low == len & 0xffff_ffff,
        ;
        let height = low as u32 / width;
        proof {
            vstd::arithmetic::div_mod::lemma_fundamental_div_mod(low as int, width as int);
            vstd::arithmetic::div_mod::lemma_mod_bound(low as int, width as int);
        }
        Self { size: Size { x: width, y: height }, slice, marker: PhantomData }
    }
}

impl<Slice, Item> Surface<Item> for GenericSurface<Slice, Item> where Slice: Store<Item> {
    open spec fn spec_size(&self) -> Size {
        self.spec_extent()
    }

    open spec fn spec_get(&self, pt: Point) -> Option<Item> {
        if self.spec_size().contains(pt) && cell_index(pt, self.spec_size().x)
            < self.spec_items().len() {
            Some(self.spec_items()[cell_index(pt, self.spec_size().x)])
        } else {
            None
        }
    }

    #[inline]
    fn surface_size(&self) -> (s: Size) {
        self.size
    }

    #[inline]
    fn surface_get(&self, pt: Point) -> (r: Option<&Item>) {
        if pt.x < self.size.x && pt.y < self.size.y {
            proof {
                lemma_cell_index_bound(pt, self.size);
            }
            let items = self.slice.items();
            let index = pt.y as u64 * self.size.x as u64 + pt.x as u64;
            if index < items.len() as u64 {
                Some(&items[index as usize])
            } else {
                None
            }
        } else {
            None
        }
    }
}

impl<Slice, Item> SurfaceMut<Item> for GenericSurface<Slice, Item> where Slice: StoreMut<Item> {
    #[inline]
    fn surface_get_mut(&mut self, pt: Point) -> (r: Option<&mut Item>)
        ensures
            final(self).spec_items().len() == old(self).spec_items().len(),
    {
        if pt.x < self.size.x && pt.y < self.size.y {
            proof {
                lemma_cell_index_bound(pt, self.size);
                assert forall|q: Point| q != pt && self.size.contains(q) implies cell_index(
                    q,
                    self.size.x,
                ) != cell_index(pt, self.size.x) by {
                    lemma_cell_index_distinct(pt, q, self.size);
                }
            }
            let index = pt.y as u64 * self.size.x as u64 + pt.x as u64;
            let items = self.slice.items_mut();
            if index < items.len() as u64 {
                Some(&mut items[index as usize])
            } else {
                None
            }
        } else {
            None
        }
    }
}

impl<Slice, Item> Buffer<Item> for GenericSurface<Slice, Item> where Slice: Store<Item> {
    open spec fn spec_width(&self) -> u32 {
        self.spec_extent().x
    }

    open spec fn spec_height(&self) -> u32 {
        self.spec_extent().y
    }

    open spec fn spec_complete(&self) -> bool {
        self.covered()
    }

    open spec fn spec_at(&self, pt: Point) -> Item {
        self.spec_items()[cell_index(pt, self.spec_extent().x)]
    }

    #[inline]
    fn width(&self) -> (w: u32) {
        self.size.x
    }

    #[inline]
    fn height(&self) -> (h: u32) {
        self.size.y
    }

    #[inline]
    fn get(&self, x: u32, y: u32) -> (r: &Item) {
        proof {
            lemma_cell_index_bound(Point { x, y }, self.size);
        }
        let items = self.slice.items();
        let index = y as u64 * self.size.x as u64 + x as u64;
        &items[index as usize]
    }
}

impl<Slice, Item> BufferMut<Item> for GenericSurface<Slice, Item> where Slice: StoreMut<Item> {
    #[inline]
    fn get_mut(&mut self, x: u32, y: u32) -> (r: &mut Item) {
        proof {
            let pt = Point { x, y };
            let extent = self.spec_extent();
            lemma_cell_index_bound(pt, extent);
            assert forall|q: Point| q != pt && q.x < extent.x && q.y < extent.y implies 0
                <= #[trigger] cell_index(q, extent.x) < extent.x * extent.y && cell_index(
                q,
                extent.x,
            ) != cell_index(pt, extent.x) by {
                lemma_cell_index_bound(q, extent);
                lemma_cell_index_distinct(pt, q, extent);
            }
        }
        let index = y as u64 * self.size.x as u64 + x as u64;
        let items = self.slice.items_mut();
        &mut items[index as usize]
    }
}

impl<Slice, Item> Deref for GenericSurface<Slice, Item> where Slice: Store<Item> {
    type Target = [Item];

    #[inline]
    fn deref(&self) -> (s: &[Item])
        ensures
            s@ == self.spec_items(),
    {
        self.slice.items()
    }
}

impl<Slice, Item> DerefMut for GenericSurface<Slice, Item> where Slice: StoreMut<Item> {
    #[inline]
    fn deref_mut(&mut self) -> (s: &mut [Item])
        ensures
            s@ == (*old(self)).spec_items(),
            final(s)@ == (*final(self)).spec_items(),
            (*final(self)).spec_size() == (*old(self)).spec_size(),
    {
        self.slice.items_mut()
    }
}

/// A covered surface has a value at exactly the positions of its extent.
pub proof fn lemma_covered_positions<Slice: Store<Item>, Item>(
    surface: &GenericSurface<Slice, Item>,
    pt: Point,
)
    requires
        surface.covered(),
    ensures
        surface.spec_get(pt) is Some <==> surface.spec_size().contains(pt),
{
    if surface.spec_size().contains(pt) {
        lemma_cell_index_bound(pt, surface.spec_size());
    }
}

/// A position inside an extent has its index inside the area.
pub proof fn lemma_cell_index_bound(pt: Point, size: Size)
    requires
        size.contains(pt),
    ensures
        0 <= pt.y * size.x <= cell_index(pt, size.x) < size.x * size.y <= 0xffff_ffff
            * 0xffff_ffff,
{
    assert(pt.y * size.x + size.x <= size.y * size.x) by (nonlinear_arith)
        requires
            pt.y + 1 <= size.y,
            0 <= size.x,
    ;
    assert(size.y * size.x == size.x * size.y) by (nonlinear_arith);
    assert(0 <= pt.y * size.x) by (nonlinear_arith)
        requires
            0 <= pt.y,
            0 <= size.x,
    ;
    assert(size.x * size.y <= 0xffff_ffff * 0xffff_ffff) by (nonlinear_arith)
        requires
            0 <= size.x <= 0xffff_ffff,
            0 <= size.y <= 0xffff_ffff,
    ;
}

/// Two different positions inside an extent have different indices.
pub proof fn lemma_cell_index_distinct(p: Point, q: Point, size: Size)
    requires
        size.contains(p),
        size.contains(q),
        p != q,
    ensures
        cell_index(p, size.x) != cell_index(q, size.x),
{
    if p.y < q.y {
        assert(p.y * size.x + size.x <= q.y * size.x) by (nonlinear_arith)
            requires
                p.y + 1 <= q.y,
                0 <= size.x,
        ;
    } else if q.y < p.y {
        assert(q.y * size.x + size.x <= p.y * size.x) by (nonlinear_arith)
            requires
                q.y + 1 <= p.y,
                0 <= size.x,
        ;
    }
}

} // verus!
