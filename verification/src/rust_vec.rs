//! A Rust `Vec` in transit across the language boundary.
//!
//! A buffer has one owner at any time. While Rust owns it, it is a `Vec`;
//! between hand-off and reclaim it is a [`RustVec`]. Both steps take their
//! argument by value, so the owner that gives the buffer away cannot reach
//! it again, and whichever value holds the buffer last frees it, once.

use crate::vector::Vector;
use vstd::prelude::*;

verus! {

/// Sole custody of a `Vec`'s buffer between the moment Rust hands it off and
/// the moment it is reclaimed or discarded.
pub struct RustVec<T> {
    buf: Vec<T>,
}

impl<T> View for RustVec<T> {
    type V = Seq<T>;

    /// The elements in transit, in order.
    closed spec fn view(&self) -> Seq<T> {
        self.buf@
    }
}

impl<T> RustVec<T> {
    /// Takes custody of `s`: its elements, in its order.
    pub fn from(s: Vec<T>) -> (ret: Self)
        ensures
            ret@ == s@,
    {
        RustVec { buf: s }
    }

    /// Gives the buffer back to Rust as the `Vec` it was.
    pub fn into_vec(self) -> (v: Vec<T>)
        ensures
            v@ == self@,
    {
        self.buf
    }

    /// The number of elements in transit.
    pub fn len(&self) -> (n: usize)
        ensures
            n == self@.len(),
    {
        self.buf.len()
    }
}

impl<T: Copy> RustVec<T> {
    /// Copies every element, in order, onto the back of `vec`. Custody of
    /// the buffer stays here.
    pub fn to_vector(&self, vec: &mut Vector<T>)
        ensures
            final(vec)@ == old(vec)@ + self@,
    {
        let n = self.buf.len();
        let mut i: usize = 0;
        while i < n
            invariant
                n == self.buf@.len(),
                i <= n,
                vec@ == old(vec)@ + self.buf@.subrange(0, i as int),
            decreases n - i,
        {
            vec.push_back(&self.buf[i]);
            i += 1;
        }
    }
}

} // verus!
