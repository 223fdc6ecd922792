//! The growable array of the C++ side, as the bridge sees it.

use vstd::prelude::*;

verus! {

/// A growable sequence of elements, filled from the back.
pub struct Vector<T> {
    items: Vec<T>,
}

impl<T> View for Vector<T> {
    type V = Seq<T>;

    /// The elements, front to back.
    closed spec fn view(&self) -> Seq<T> {
        self.items@
    }
}

impl<T> Vector<T> {
    /// An empty vector.
    pub fn new() -> (v: Self)
        ensures
            v@ == Seq::<T>::empty(),
    {
        Vector { items: Vec::new() }
    }

    /// The number of elements.
    pub fn size(&self) -> (n: usize)
        ensures
            n == self@.len(),
    {
        self.items.len()
    }

    /// The element at `pos`, or `None` where `pos` is past the end.
    pub fn get(&self, pos: usize) -> (item: Option<&T>)
        ensures
            item == (if pos < self@.len() {
                Some(&self@[pos as int])
            } else {
                None
            }),
    {
        if pos < self.items.len() {
            Some(&self.items[pos])
        } else {
            None
        }
    }
}

impl<T: Copy> Vector<T> {
    /// Appends a copy of `item`.
    pub fn push_back(&mut self, item: &T)
        ensures
            final(self)@ == old(self)@.push(*item),
    {
        self.items.push(*item);
    }
}

} // verus!
