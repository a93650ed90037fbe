//! Ordered sets and maps keyed by node ids.

use std::collections::{BTreeMap, BTreeSet};
use vstd::prelude::*;
use crate::log_id::LogId;
use crate::metrics::SerdeInstant;
use crate::node::Node;
use crate::time::Instant;

verus! {

broadcast use vstd::std_specs::btree::group_btree_axioms;

/// Whether `s` lists the members of `set` in increasing order.
pub open spec fn lists(s: Seq<u64>, set: Set<u64>) -> bool {
    &&& forall|i: int, j: int| 0 <= i < j < s.len() ==> s[i] < s[j]
    &&& s.to_set() == set
}

/// A listing is as long as its set.
pub proof fn listing_len(s: Seq<u64>, set: Set<u64>)
    requires
        lists(s, set),
    ensures
        set.finite(),
        s.len() == set.len(),
{
    assert(s.no_duplicates());
    s.unique_seq_to_set();
}

/// A finite set of node ids is listed in increasing order by one sequence only.
pub proof fn listing_is_unique(a: Seq<u64>, b: Seq<u64>, set: Set<u64>)
    requires
        lists(a, set),
        lists(b, set),
    ensures
        a == b,
    decreases a.len(),
{
    if a.len() == 0 {
        if b.len() > 0 {
            assert(b.to_set().contains(b[0]));
            assert(a.contains(b[0]));
        }
        assert(a =~= b);
    } else {
        assert(a.to_set().contains(a[0]));
        assert(b.contains(a[0]));
        let x = a.last();
        let y = b.last();
        assert(b.to_set().contains(x)) by {
            assert(a.contains(x));
        }
        assert(a.to_set().contains(y)) by {
            assert(b.contains(y));
        }
        let i = choose|i: int| 0 <= i < b.len() && b[i] == x;
        let j = choose|j: int| 0 <= j < a.len() && a[j] == y;
        assert(x == y);
        let rest = set.remove(x);
        assert(a.drop_last().to_set() =~= rest) by {
            assert forall|k: u64| a.drop_last().to_set().contains(k) == rest.contains(k) by {
                if rest.contains(k) {
                    assert(a.contains(k));
                    let p = choose|p: int| 0 <= p < a.len() && a[p] == k;
                    assert(a.drop_last()[p] == k);
                }
                if a.drop_last().contains(k) {
                    let p = choose|p: int| 0 <= p < a.drop_last().len() && a.drop_last()[p] == k;
                    assert(a[p] == k);
                    assert(a.contains(k));
                }
            }
        }
        assert(b.drop_last().to_set() =~= rest) by {
            assert forall|k: u64| b.drop_last().to_set().contains(k) == rest.contains(k) by {
                if rest.contains(k) {
                    assert(b.contains(k));
                    let p = choose|p: int| 0 <= p < b.len() && b[p] == k;
                    assert(b.drop_last()[p] == k);
                }
                if b.drop_last().contains(k) {
                    let p = choose|p: int| 0 <= p < b.drop_last().len() && b.drop_last()[p] == k;
                    assert(b[p] == k);
                    assert(b.contains(k));
                }
            }
        }
        listing_is_unique(a.drop_last(), b.drop_last(), rest);
        assert(a =~= a.drop_last().push(x));
        assert(b =~= b.drop_last().push(y));
    }
}

/// An increasing sequence of node ids increases as their numbers do.
proof fn lemma_increasing(s: Seq<&u64>)
    requires
        vstd::std_specs::btree::increasing_seq(s),
    ensures
        forall|i: int, j: int| 0 <= i < j < s.len() ==> *s[i] < *s[j],
{
    reveal(vstd::laws_eq::obeys_eq_spec_properties);
    reveal(vstd::laws_cmp::obeys_cmp_partial_ord);
    reveal(vstd::laws_cmp::obeys_cmp_ord);
    assert(vstd::laws_cmp::obeys_cmp::<&u64>());
    assert forall|i: int, j: int| 0 <= i < j < s.len() implies *s[i] < *s[j] by {
        assert(vstd::std_specs::cmp::OrdSpec::cmp_spec(&s[i], &s[j]) is Less);
    }
}

/// The members of a set in increasing order.
pub fn set_members(set: &BTreeSet<u64>) -> (r: Vec<u64>)
    ensures
        lists(r@, set@),
{
    let mut r: Vec<u64> = Vec::new();
    let ghost all = vstd::std_specs::iter::IteratorSpec::remaining(&set.iter()).unref();
    proof {
        lemma_increasing(vstd::std_specs::iter::IteratorSpec::remaining(&set.iter()));
    }
    for x in it: set.iter()
        invariant
            it.seq().unref() == all,
            r@ == all.take(it.index() as int),
    {
        assert(all.take(it.index() + 1) =~= all.take(it.index() as int).push(*x));
        r.push(*x);
    }
    assert(all.take(all.len() as int) =~= all);
    r
}

/// The keys of a map in increasing order.
pub fn map_keys<V>(map: &BTreeMap<u64, V>) -> (r: Vec<u64>)
    ensures
        lists(r@, map@.dom()),
{
    let mut r: Vec<u64> = Vec::new();
    let ghost all = vstd::std_specs::iter::IteratorSpec::remaining(&map.keys()).unref();
    proof {
        lemma_increasing(vstd::std_specs::iter::IteratorSpec::remaining(&map.keys()));
    }
    for x in it: map.keys()
        invariant
            it.seq().unref() == all,
            r@ == all.take(it.index() as int),
    {
        assert(all.take(it.index() + 1) =~= all.take(it.index() as int).push(*x));
        r.push(*x);
    }
    assert(all.take(all.len() as int) =~= all);
    r
}

/// The position of a member in a listing of its set.
pub proof fn listed(s: Seq<u64>, set: Set<u64>, id: u64)
    requires
        lists(s, set),
    ensures
        set.contains(id) <==> s.contains(id),
        set.contains(id) ==> exists|k: int| 0 <= k < s.len() && #[trigger] s[k] == id,
{
    assert(s.to_set().contains(id) <==> s.contains(id));
}

/// The members of either set.
pub fn set_union(a: &BTreeSet<u64>, b: &BTreeSet<u64>) -> (r: BTreeSet<u64>)
    ensures
        r@ == a@.union(b@),
{
    let mut r: BTreeSet<u64> = a.clone();
    let members = set_members(b);
    let mut i: usize = 0;
    while i < members.len()
        invariant
            i <= members.len(),
            forall|id: u64| #[trigger]
                r@.contains(id) <==> a@.contains(id) || exists|k: int|
                    0 <= k < i && #[trigger] members[k] == id,
        decreases members.len() - i,
    {
        r.insert(members[i]);
        i = i + 1;
    }
    proof {
        assert forall|id: u64| r@.contains(id) <==> a@.union(b@).contains(id) by {
            listed(members@, b@, id);
            if b@.contains(id) {
                let k = choose|k: int| 0 <= k < members@.len() && members@[k] == id;
                assert(members[k] == id);
            }
            if exists|k: int| 0 <= k < members.len() && #[trigger] members[k] == id {
                let k = choose|k: int| 0 <= k < members.len() && #[trigger] members[k] == id;
                assert(members@[k] == id);
                assert(members@.contains(id));
            }
        }
        assert(r@ =~= a@.union(b@));
    }
    r
}

/// The members of `a` that are not in `b`.
pub fn set_difference(a: &BTreeSet<u64>, b: &BTreeSet<u64>) -> (r: BTreeSet<u64>)
    ensures
        r@ == a@.difference(b@),
{
    let mut r: BTreeSet<u64> = a.clone();
    let members = set_members(b);
    let mut i: usize = 0;
    while i < members.len()
        invariant
            i <= members.len(),
            forall|id: u64| #[trigger]
                r@.contains(id) <==> a@.contains(id) && forall|k: int|
                    0 <= k < i ==> #[trigger] members[k] != id,
        decreases members.len() - i,
    {
        r.remove(&members[i]);
        i = i + 1;
    }
    proof {
        assert forall|id: u64| r@.contains(id) <==> a@.difference(b@).contains(id) by {
            listed(members@, b@, id);
            if b@.contains(id) {
                let k = choose|k: int| 0 <= k < members@.len() && members@[k] == id;
                assert(members[k] == id);
            }
            if !b@.contains(id) {
                assert forall|k: int| 0 <= k < members.len() implies #[trigger] members[k] != id by {
                    if members[k] == id {
                        assert(members@[k] == id);
                        assert(members@.contains(id));
                    }
                }
            }
        }
        assert(r@ =~= a@.difference(b@));
    }
    r
}

/// Whether two sets have the same members.
pub fn set_equal(a: &BTreeSet<u64>, b: &BTreeSet<u64>) -> (r: bool)
    ensures
        r == (a@ == b@),
{
    let x = set_members(a);
    let y = set_members(b);
    proof {
        if a@ == b@ {
            listing_is_unique(x@, y@, a@);
        }
    }
    if x.len() != y.len() {
        return false;
    }
    let mut i: usize = 0;
    while i < x.len()
        invariant
            i <= x.len(),
            x.len() == y.len(),
            a@ == b@ ==> x@ == y@,
            forall|k: int| 0 <= k < i ==> x[k] == y[k],
        decreases x.len() - i,
    {
        if x[i] != y[i] {
            return false;
        }
        i = i + 1;
    }
    assert(x@ =~= y@);
    true
}

/// A set of the given ids.
pub fn set_of(ids: &Vec<u64>) -> (r: BTreeSet<u64>)
    ensures
        r@ == ids@.to_set(),
{
    let mut r: BTreeSet<u64> = BTreeSet::new();
    let mut i: usize = 0;
    while i < ids.len()
        invariant
            i <= ids.len(),
            forall|id: u64| #[trigger]
                r@.contains(id) <==> exists|k: int| 0 <= k < i && #[trigger] ids[k] == id,
        decreases ids.len() - i,
    {
        r.insert(ids[i]);
        i = i + 1;
    }
    proof {
        assert forall|id: u64| r@.contains(id) <==> ids@.to_set().contains(id) by {
            if ids@.contains(id) {
                let k = choose|k: int| 0 <= k < ids@.len() && ids@[k] == id;
                assert(ids[k] == id);
            }
            if r@.contains(id) {
                let k = choose|k: int| 0 <= k < ids.len() && #[trigger] ids[k] == id;
                assert(ids@[k] == id);
                assert(ids@.contains(id));
            }
        }
        assert(r@ =~= ids@.to_set());
    }
    r
}

/// A copy of a map of nodes.
pub fn map_duplicate<N: Node>(map: &BTreeMap<u64, N>) -> (r: BTreeMap<u64, N>)
    ensures
        r@ == map@,
{
    let keys = map_keys(map);
    let mut r: BTreeMap<u64, N> = BTreeMap::new();
    let mut i: usize = 0;
    while i < keys.len()
        invariant
            i <= keys.len(),
            lists(keys@, map@.dom()),
            forall|id: u64| #[trigger]
                r@.contains_key(id) <==> exists|k: int| 0 <= k < i && #[trigger] keys[k] == id,
            forall|id: u64| #[trigger] r@.contains_key(id) ==> map@.contains_key(id) && r@[id] == map@[id],
        decreases keys.len() - i,
    {
        proof {
            assert(keys@.contains(keys[i as int]));
            listed(keys@, map@.dom(), keys[i as int]);
        }
        match map.get(&keys[i]) {
            Some(n) => {
                r.insert(keys[i], n.duplicate());
            },
            None => {},
        }
        i = i + 1;
    }
    proof {
        assert forall|id: u64| map@.contains_key(id) implies r@.contains_key(id) by {
            listed(keys@, map@.dom(), id);
            let k = choose|k: int| 0 <= k < keys@.len() && #[trigger] keys@[k] == id;
            assert(keys[k] == id);
        }
        assert(r@ =~= map@);
    }
    r
}

/// Whether two maps know the same of the same nodes.
pub fn map_same<N: Node>(a: &BTreeMap<u64, N>, b: &BTreeMap<u64, N>) -> (r: bool)
    ensures
        r == (a@ == b@),
{
    let x = map_keys(a);
    let y = map_keys(b);
    if x.len() != y.len() {
        proof {
            if a@ == b@ {
                listing_is_unique(x@, y@, a@.dom());
            }
        }
        return false;
    }
    let mut i: usize = 0;
    while i < x.len()
        invariant
            i <= x.len(),
            x.len() == y.len(),
            lists(x@, a@.dom()),
            lists(y@, b@.dom()),
            forall|k: int| 0 <= k < i ==> x[k] == y[k],
            forall|k: int| 0 <= k < i ==> a@[#[trigger] x[k]] == b@[x[k]],
        decreases x.len() - i,
    {
        proof {
            if a@ == b@ {
                listing_is_unique(x@, y@, a@.dom());
            }
            assert(x@.contains(x[i as int]));
            listed(x@, a@.dom(), x[i as int]);
        }
        if x[i] != y[i] {
            return false;
        }
        match (a.get(&x[i]), b.get(&x[i])) {
            (Some(m), Some(n)) => {
                if !m.same(n) {
                    return false;
                }
            },
            _ => {
                return false;
            },
        }
        i = i + 1;
    }
    proof {
        assert(x@ =~= y@);
        assert(a@.dom() =~= b@.dom());
        assert forall|id: u64| a@.contains_key(id) implies a@[id] == b@[id] by {
            listed(x@, a@.dom(), id);
            let k = choose|k: int| 0 <= k < x@.len() && #[trigger] x@[k] == id;
            assert(x[k] == id);
        }
        assert(a@ =~= b@);
    }
    true
}

/// Whether two maps have the same log ids for the same nodes.
pub fn log_map_same(a: &BTreeMap<u64, Option<LogId>>, b: &BTreeMap<u64, Option<LogId>>) -> (r: bool)
    ensures
        r == (a@ == b@),
{
    let x = map_keys(a);
    let y = map_keys(b);
    if x.len() != y.len() {
        proof {
            if a@ == b@ {
                listing_is_unique(x@, y@, a@.dom());
            }
        }
        return false;
    }
    let mut i: usize = 0;
    while i < x.len()
        invariant
            i <= x.len(),
            x.len() == y.len(),
            lists(x@, a@.dom()),
            lists(y@, b@.dom()),
            forall|k: int| 0 <= k < i ==> x[k] == y[k],
            forall|k: int| 0 <= k < i ==> a@[#[trigger] x[k]] == b@[x[k]],
        decreases x.len() - i,
    {
        proof {
            if a@ == b@ {
                listing_is_unique(x@, y@, a@.dom());
            }
            assert(x@.contains(x[i as int]));
            listed(x@, a@.dom(), x[i as int]);
        }
        if x[i] != y[i] {
            return false;
        }
        match (a.get(&x[i]), b.get(&x[i])) {
            (Some(m), Some(n)) => {
                if *m != *n {
                    return false;
                }
            },
            _ => {
                return false;
            },
        }
        i = i + 1;
    }
    proof {
        assert(x@ =~= y@);
        assert(a@.dom() =~= b@.dom());
        assert forall|id: u64| a@.contains_key(id) implies a@[id] == b@[id] by {
            listed(x@, a@.dom(), id);
            let k = choose|k: int| 0 <= k < x@.len() && #[trigger] x@[k] == id;
            assert(x[k] == id);
        }
        assert(a@ =~= b@);
    }
    true
}

/// Whether two maps have the same readings of the clock for the same nodes.
pub fn instant_map_same(a: &BTreeMap<u64, Option<SerdeInstant<Instant>>>, b: &BTreeMap<u64, Option<SerdeInstant<Instant>>>) -> (r: bool)
    ensures
        r == (a@ == b@),
{
    let x = map_keys(a);
    let y = map_keys(b);
    if x.len() != y.len() {
        proof {
            if a@ == b@ {
                listing_is_unique(x@, y@, a@.dom());
            }
        }
        return false;
    }
    let mut i: usize = 0;
    while i < x.len()
        invariant
            i <= x.len(),
            x.len() == y.len(),
            lists(x@, a@.dom()),
            lists(y@, b@.dom()),
            forall|k: int| 0 <= k < i ==> x[k] == y[k],
            forall|k: int| 0 <= k < i ==> a@[#[trigger] x[k]] == b@[x[k]],
        decreases x.len() - i,
    {
        proof {
            if a@ == b@ {
                listing_is_unique(x@, y@, a@.dom());
            }
            assert(x@.contains(x[i as int]));
            listed(x@, a@.dom(), x[i as int]);
        }
        if x[i] != y[i] {
            return false;
        }
        match (a.get(&x[i]), b.get(&x[i])) {
            (Some(m), Some(n)) => {
                if !opt_instant_same(m, n) {
                    return false;
                }
            },
            _ => {
                return false;
            },
        }
        i = i + 1;
    }
    proof {
        assert(x@ =~= y@);
        assert(a@.dom() =~= b@.dom());
        assert forall|id: u64| a@.contains_key(id) implies a@[id] == b@[id] by {
            listed(x@, a@.dom(), id);
            let k = choose|k: int| 0 <= k < x@.len() && #[trigger] x@[k] == id;
            assert(x[k] == id);
        }
        assert(a@ =~= b@);
    }
    true
}

fn opt_instant_same(a: &Option<SerdeInstant<Instant>>, b: &Option<SerdeInstant<Instant>>) -> (r: bool)
    ensures
        r == (*a == *b),
{
    match (a, b) {
        (None, None) => true,
        (Some(x), Some(y)) => x.inner == y.inner,
        _ => false,
    }
}

} // verus!
