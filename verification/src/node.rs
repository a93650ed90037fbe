//! Nodes of the cluster.

use vstd::prelude::*;

verus! {

/// What the application knows of a node, such as its address.
pub trait Node: Sized {
    /// A copy of the node.
    fn duplicate(&self) -> (r: Self)
        ensures
            r == *self,
    ;

    /// Whether two nodes are the same.
    fn same(&self, other: &Self) -> (r: bool)
        ensures
            r == (*self == *other),
    ;

    /// The node that stands for one of which nothing is known.
    spec fn blank_node() -> Self;

    /// The node that stands for one of which nothing is known.
    fn new_blank() -> (r: Self)
        ensures
            r == Self::blank_node(),
    ;
}

impl Node for () {
    fn duplicate(&self) -> (r: ()) {
        ()
    }

    fn same(&self, other: &()) -> (r: bool) {
        true
    }

    open spec fn blank_node() -> () {
        ()
    }

    fn new_blank() -> (r: ()) {
        ()
    }
}

impl Node for u64 {
    fn duplicate(&self) -> (r: u64) {
        *self
    }

    fn same(&self, other: &u64) -> (r: bool) {
        *self == *other
    }

    open spec fn blank_node() -> u64 {
        0
    }

    fn new_blank() -> (r: u64) {
        0
    }
}

} // verus!
