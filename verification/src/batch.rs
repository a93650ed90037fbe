//! Batches of items.

use vstd::prelude::*;

verus! {

/// One item or many.
pub enum Batch<T> {
    One(T),
    Many(Vec<T>),
}

impl<T> View for Batch<T> {
    type V = Seq<T>;

    open spec fn view(&self) -> Seq<T> {
        match self {
            Batch::One(x) => seq![*x],
            Batch::Many(v) => v@,
        }
    }
}

impl<T> Batch<T> {
    /// How many items the batch holds.
    pub fn len(&self) -> (r: usize)
        ensures
            r == self@.len(),
    {
        match self {
            Batch::One(_) => 1,
            Batch::Many(v) => v.len(),
        }
    }

    /// The item at a position.
    pub fn get(&self, i: usize) -> (r: &T)
        requires
            i < self@.len(),
        ensures
            *r == self@[i as int],
    {
        match self {
            Batch::One(x) => x,
            Batch::Many(v) => &v[i],
        }
    }
}

} // verus!
