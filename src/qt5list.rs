//! `Qt5List`: the list type of Qt 5, held by value, with one module of
//! construction and destruction functions per element type.
use vstd::prelude::*;

pub mod qt5list_bool;
pub mod qt5list_u16;
pub mod qt5list_u8;

verus! {

/// A list of `T`.
pub struct Qt5List<T> {
    items: Vec<T>,
}

impl<T> View for Qt5List<T> {
    type V = Seq<T>;

    closed spec fn view(&self) -> Seq<T> {
        self.items@
    }
}

impl<T: Copy> Qt5List<T> {
    /// Constructs an empty list.
    pub fn new() -> (r: Self)
        ensures
            r@ == Seq::<T>::empty(),
    {
        Qt5List { items: Vec::new() }
    }

    /// A copy of the list: the same items in the same order.
    pub fn copy(&self) -> (r: Self)
        ensures
            r@ == self@,
    {
        let mut items: Vec<T> = Vec::new();
        let mut i: usize = 0;
        while i < self.items.len()
            invariant
                0 <= i <= self.items@.len(),
                items@ == self.items@.subrange(0, i as int),
            decreases self.items@.len() - i,
        {
            items.push(self.items[i]);
            assert(self.items@.subrange(0, i + 1) =~= self.items@.subrange(0, i as int).push(self.items@[i as int]));
            i = i + 1;
        }
        assert(self.items@.subrange(0, i as int) =~= self.items@);
        Qt5List { items }
    }

    /// Releases the list's items, leaving it empty.
    pub fn release(&mut self)
        ensures
            final(self)@ == Seq::<T>::empty(),
    {
        self.items = Vec::new();
    }

    /// Appends `value` to the list.
    pub fn append(&mut self, value: T)
        ensures
            final(self)@ == old(self)@.push(value),
    {
        self.items.push(value);
    }

    /// Returns the number of items.
    pub fn len(&self) -> (r: usize)
        ensures
            r == self@.len(),
    {
        self.items.len()
    }
}

} // verus!
