//! Sequences.

use vstd::prelude::*;

verus! {

/// The items for which `f` holds, in their order.
pub open spec fn keep_if<A>(s: Seq<A>, f: spec_fn(A) -> bool) -> Seq<A>
    decreases s.len(),
{
    if s.len() == 0 {
        Seq::empty()
    } else if f(s.last()) {
        keep_if(s.drop_last(), f).push(s.last())
    } else {
        keep_if(s.drop_last(), f)
    }
}

/// The items kept of a sequence and of the items before its last one.
pub proof fn keep_if_push<A>(s: Seq<A>, a: A, f: spec_fn(A) -> bool)
    ensures
        keep_if(s.push(a), f) == (if f(a) {
            keep_if(s, f).push(a)
        } else {
            keep_if(s, f)
        }),
{
    assert(s.push(a).drop_last() =~= s);
}

/// An item is kept exactly if it was there and `f` holds for it.
pub proof fn keep_if_contains<A>(s: Seq<A>, f: spec_fn(A) -> bool, a: A)
    ensures
        keep_if(s, f).contains(a) <==> s.contains(a) && f(a),
    decreases s.len(),
{
    if s.len() > 0 {
        keep_if_contains(s.drop_last(), f, a);
        let t = s.drop_last();
        assert(s =~= t.push(s.last()));
        assert(s.contains(a) <==> t.contains(a) || a == s.last()) by {
            if t.contains(a) {
                let i = choose|i: int| 0 <= i < t.len() && t[i] == a;
                assert(s[i] == a);
            }
            if s.contains(a) && a != s.last() {
                let i = choose|i: int| 0 <= i < s.len() && s[i] == a;
                assert(t[i] == a);
            }
            assert(s[s.len() - 1] == s.last());
        }
        let k = keep_if(t, f);
        if f(s.last()) {
            assert(k.push(s.last()).contains(a) <==> k.contains(a) || a == s.last()) by {
                if k.contains(a) {
                    let i = choose|i: int| 0 <= i < k.len() && k[i] == a;
                    assert(k.push(s.last())[i] == a);
                }
                if k.push(s.last()).contains(a) && a != s.last() {
                    let i = choose|i: int|
                        0 <= i < k.push(s.last()).len() && k.push(s.last())[i] == a;
                    assert(k[i] == a);
                }
                assert(k.push(s.last())[k.len() as int] == s.last());
            }
        }
    }
}

/// Keeping splits a sequence: what is kept and what is not kept are together as long as it.
pub proof fn keep_if_splits<A>(s: Seq<A>, f: spec_fn(A) -> bool, g: spec_fn(A) -> bool)
    requires
        forall|a: A| #[trigger] f(a) == !g(a),
    ensures
        keep_if(s, f).len() + keep_if(s, g).len() == s.len(),
    decreases s.len(),
{
    if s.len() > 0 {
        assert(f(s.last()) == !g(s.last()));
        keep_if_splits(s.drop_last(), f, g);
    }
}

/// Keeping keeps the order: an item that is kept stands behind those that are kept of the items
/// before it, and every kept item stands at such a place.
pub proof fn kept_items_keep_their_order<A>(s: Seq<A>, f: spec_fn(A) -> bool, i: int, p: int)
    ensures
        0 <= i < s.len() && f(s[i]) ==> keep_if(s.take(i), f).len() < keep_if(s, f).len()
            && keep_if(s, f)[keep_if(s.take(i), f).len() as int] == s[i],
        0 <= p < keep_if(s, f).len() ==> exists|k: int|
            0 <= k < s.len() && f(#[trigger] s[k]) && s[k] == keep_if(s, f)[p] && keep_if(
                s.take(k),
                f,
            ).len() == p,
    decreases s.len(),
{
    if s.len() > 0 {
        let t = s.drop_last();
        let n = s.len() - 1;
        kept_items_keep_their_order(t, f, i, p);
        assert(s.take(n) =~= t);
        if 0 <= i < n {
            assert(s.take(i) =~= t.take(i));
        }
        if 0 <= p < keep_if(s, f).len() {
            if p < keep_if(t, f).len() {
                let k = choose|k: int|
                    0 <= k < t.len() && f(#[trigger] t[k]) && t[k] == keep_if(t, f)[p] && keep_if(
                        t.take(k),
                        f,
                    ).len() == p;
                assert(s[k] == t[k]);
                assert(s.take(k) =~= t.take(k));
            } else {
                assert(s[n] == s.last());
            }
        }
    }
}

/// What stands before the same end, or after the same beginning, can be told from the whole.
pub proof fn ends_can_be_taken_off<A>(x: Seq<A>, y: Seq<A>, q: Seq<A>)
    ensures
        x + q == y + q ==> x == y,
        q + x == q + y ==> x == y,
{
    if x + q == y + q {
        assert((x + q).len() == (y + q).len());
        assert(x =~= (x + q).take(x.len() as int));
        assert(y =~= (y + q).take(y.len() as int));
    }
    if q + x == q + y {
        assert(x =~= (q + x).skip(q.len() as int));
        assert(y =~= (q + y).skip(q.len() as int));
    }
}

/// The first `n` parts, one after the other.
pub open spec fn strung<A>(parts: Seq<Seq<A>>, n: nat) -> Seq<A>
    decreases n,
{
    if n == 0 {
        Seq::empty()
    } else if n == 1 {
        parts[0]
    } else {
        strung(parts, (n - 1) as nat) + parts[n - 1]
    }
}

/// Where all parts but one are the same, that one can be told from the whole.
pub proof fn a_part_can_be_told<A>(a: Seq<Seq<A>>, b: Seq<Seq<A>>, k: int, n: nat)
    requires
        0 <= k < n,
        forall|i: int| 0 <= i < n && i != k ==> a[i] == b[i],
        strung(a, n) == strung(b, n),
    ensures
        a[k] == b[k],
    decreases n,
{
    if n > 1 {
        let m = (n - 1) as nat;
        if k == n - 1 {
            lemma_strung_alike(a, b, m);
            ends_can_be_taken_off(a[k], b[k], strung(a, m));
        } else {
            ends_can_be_taken_off(strung(a, m), strung(b, m), a[n - 1]);
            a_part_can_be_told(a, b, k, m);
        }
    }
}

proof fn lemma_strung_alike<A>(a: Seq<Seq<A>>, b: Seq<Seq<A>>, n: nat)
    requires
        forall|i: int| 0 <= i < n ==> a[i] == b[i],
    ensures
        strung(a, n) == strung(b, n),
    decreases n,
{
    if n > 1 {
        lemma_strung_alike(a, b, (n - 1) as nat);
    }
}

} // verus!
