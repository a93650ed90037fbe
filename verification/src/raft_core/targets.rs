//! The nodes that a request is sent to.

use vstd::prelude::*;

verus! {

/// A list of node ids that holds a few of them in place.
#[verifier::external_body]
pub struct TargetList {
    ids: smallvec::SmallVec<[u64; 8]>,
}

/// What a target list holds.
pub uninterp spec fn target_ids(list: TargetList) -> Seq<u64>;

/// `smallvec::SmallVec::new`: a list that holds nothing.
#[verifier::external_body]
fn list_new() -> (r: TargetList)
    ensures
        target_ids(r) == Seq::<u64>::empty(),
{
    TargetList { ids: smallvec::SmallVec::new() }
}

/// `smallvec::SmallVec::push`: the item comes after the others.
#[verifier::external_body]
fn list_push(list: &mut TargetList, id: u64)
    ensures
        target_ids(*final(list)) == target_ids(*old(list)).push(id),
{
    list.ids.push(id)
}

/// `smallvec::SmallVec::len`: how many items the list holds.
#[verifier::external_body]
fn list_len(list: &TargetList) -> (r: usize)
    ensures
        r == target_ids(*list).len(),
{
    list.ids.len()
}

/// Indexing a `smallvec::SmallVec`: the item at a position of the list.
#[verifier::external_body]
fn list_get(list: &TargetList, i: usize) -> (r: u64)
    requires
        i < target_ids(*list).len(),
    ensures
        r == target_ids(*list)[i as int],
{
    list.ids[i]
}

impl View for TargetList {
    type V = Seq<u64>;

    open spec fn view(&self) -> Seq<u64> {
        target_ids(*self)
    }
}

impl TargetList {
    /// A list that holds nothing.
    pub fn new() -> (r: TargetList)
        ensures
            r@ == Seq::<u64>::empty(),
    {
        list_new()
    }

    /// Put an id after the others.
    pub fn push(&mut self, id: u64)
        ensures
            final(self)@ == old(self)@.push(id),
    {
        list_push(self, id)
    }

    /// The ids in their order.
    pub fn to_vec(&self) -> (r: Vec<u64>)
        ensures
            r@ == self@,
    {
        let mut r: Vec<u64> = Vec::new();
        let n = list_len(self);
        let mut i: usize = 0;
        while i < n
            invariant
                i <= n,
                n == self@.len(),
                r@ == self@.take(i as int),
            decreases n - i,
        {
            assert(self@.take(i + 1) =~= self@.take(i as int).push(self@[i as int]));
            r.push(list_get(self, i));
            i = i + 1;
        }
        assert(self@.take(n as int) =~= self@);
        r
    }
}

} // verus!
