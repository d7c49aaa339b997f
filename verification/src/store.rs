//! Flat stores of values: whatever can lend out its contents as one slice.

use vstd::prelude::*;

verus! {

/// A flat store that can lend its items as a shared slice.
pub trait Store<Item> {
    /// The items of the store, in order.
    spec fn spec_items(&self) -> Seq<Item>;

    /// Lends the items.
    fn items(&self) -> (s: &[Item])
        ensures
            s@ == self.spec_items(),
    ;
}

/// A flat store that can lend its items as a mutable slice.
pub trait StoreMut<Item>: Store<Item> {
    /// Lends the items for writing. What the caller leaves in the slice is
    /// what the store holds afterwards.
    fn items_mut(&mut self) -> (s: &mut [Item])
        ensures
            s@ == old(self).spec_items(),
            final(s)@ == final(self).spec_items(),
    ;
}

impl<Item> Store<Item> for Vec<Item> {
    open spec fn spec_items(&self) -> Seq<Item> {
        self@
    }

    #[inline]
    fn items(&self) -> (s: &[Item]) {
        self.as_slice()
    }
}

impl<Item> StoreMut<Item> for Vec<Item> {
    #[inline]
    fn items_mut(&mut self) -> (s: &mut [Item]) {
        self.as_mut_slice()
    }
}

impl<Item, const N: usize> Store<Item> for [Item; N] {
    open spec fn spec_items(&self) -> Seq<Item> {
        self@
    }

    #[inline]
    fn items(&self) -> (s: &[Item]) {
        self.as_slice()
    }
}

impl<Item, const N: usize> StoreMut<Item> for [Item; N] {
    #[inline]
    fn items_mut(&mut self) -> (s: &mut [Item]) {
        self
    }
}

impl<'a, Item> Store<Item> for &'a [Item] {
    open spec fn spec_items(&self) -> Seq<Item> {
        (**self)@
    }

    #[inline]
    fn items(&self) -> (s: &[Item]) {
        *self
    }
}

impl<'a, Item> Store<Item> for &'a mut [Item] {
    open spec fn spec_items(&self) -> Seq<Item> {
        (**self)@
    }

    #[inline]
    fn items(&self) -> (s: &[Item]) {
        &**self
    }
}

impl<'a, Item> StoreMut<Item> for &'a mut [Item] {
    #[inline]
    fn items_mut(&mut self) -> (s: &mut [Item]) {
        &mut **self
    }
}

impl<'a, Item, const N: usize> Store<Item> for &'a [Item; N] {
    open spec fn spec_items(&self) -> Seq<Item> {
        (**self)@
    }

    #[inline]
    fn items(&self) -> (s: &[Item]) {
        (**self).as_slice()
    }
}

impl<'a, Item, const N: usize> Store<Item> for &'a mut [Item; N] {
    open spec fn spec_items(&self) -> Seq<Item> {
        (**self)@
    }

    #[inline]
    fn items(&self) -> (s: &[Item]) {
        (**self).as_slice()
    }
}

impl<'a, Item, const N: usize> StoreMut<Item> for &'a mut [Item; N] {
    #[inline]
    fn items_mut(&mut self) -> (s: &mut [Item]) {
        &mut **self
    }
}

} // verus!
