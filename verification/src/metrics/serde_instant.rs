//! A reading of the clock that metrics carry.

use vstd::prelude::*;

verus! {

/// A reading of the clock that metrics carry.
#[derive(Clone, Copy, Debug, PartialEq, Eq, PartialOrd, Ord)]
pub struct SerdeInstant<I> {
    pub inner: I,
}

impl<I> SerdeInstant<I> {
    /// Wrap a reading.
    pub fn new(inner: I) -> (r: SerdeInstant<I>)
        ensures
            r == (SerdeInstant { inner }),
    {
        SerdeInstant { inner }
    }

    /// The wrapped reading.
    pub fn into_inner(self) -> (r: I)
        ensures
            r == self.inner,
    {
        self.inner
    }

    /// The wrapped reading.
    pub fn as_inner(&self) -> (r: &I)
        ensures
            *r == self.inner,
    {
        &self.inner
    }
}

impl<I> From<I> for SerdeInstant<I> {
    fn from(inner: I) -> (r: SerdeInstant<I>) {
        SerdeInstant { inner }
    }
}

impl<I> vstd::std_specs::convert::FromSpecImpl<I> for SerdeInstant<I> {
    open spec fn obeys_from_spec() -> bool {
        true
    }

    open spec fn from_spec(inner: I) -> SerdeInstant<I> {
        SerdeInstant { inner }
    }
}

} // verus!
