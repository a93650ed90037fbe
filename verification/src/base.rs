//! Marker traits that the types of an application meet.

use vstd::prelude::*;

verus! {

/// A trait that extends `Send`.
pub trait OptionalSend: Send {

}

impl<T: Send + ?Sized> OptionalSend for T {

}

/// A trait that extends `Sync`.
pub trait OptionalSync: Sync {

}

impl<T: Sync + ?Sized> OptionalSync for T {

}

/// A trait that combines the foundational traits.
pub trait OptionalFeatures: OptionalSend + OptionalSync + Unpin {

}

impl<T> OptionalFeatures for T where T: OptionalSend + OptionalSync + Unpin {

}

} // verus!
