//! Responders that wait for their log entries to be applied.

use vstd::prelude::*;
use crate::seqs;

verus! {

/// Whether the entry of a responder stands at `upto` or before it.
pub open spec fn is_upto<T>(upto: u64) -> spec_fn((u64, T)) -> bool {
    |x: (u64, T)| x.0 <= upto
}

/// Whether the entry of a responder stands after `upto`.
pub open spec fn is_after<T>(upto: u64) -> spec_fn((u64, T)) -> bool {
    |x: (u64, T)| x.0 > upto
}

/// Whether the entry of a responder stands at `since` or after it.
pub open spec fn is_since<T>(since: u64) -> spec_fn((u64, T)) -> bool {
    |x: (u64, T)| x.0 >= since
}

/// Whether the entry of a responder stands before `since`.
pub open spec fn is_before<T>(since: u64) -> spec_fn((u64, T)) -> bool {
    |x: (u64, T)| x.0 < since
}

/// Responders with the indexes of the log entries that they wait for, in the order in which the
/// entries were written.
pub struct ClientResponderQueue<T> {
    pub items: Vec<(u64, T)>,
}

impl<T> View for ClientResponderQueue<T> {
    type V = Seq<(u64, T)>;

    open spec fn view(&self) -> Seq<(u64, T)> {
        self.items@
    }
}

impl<T> ClientResponderQueue<T> {
    /// A queue without responders.
    pub fn new() -> (r: ClientResponderQueue<T>)
        ensures
            r@ == Seq::<(u64, T)>::empty(),
    {
        ClientResponderQueue { items: Vec::new() }
    }

    /// Let a responder wait for the entry at `index`.
    pub fn push(&mut self, index: u64, responder: T)
        ensures
            final(self)@ == old(self)@.push((index, responder)),
    {
        self.items.push((index, responder));
    }

    /// The index of the first entry that is waited for.
    pub fn first_index(&self) -> (r: Option<u64>)
        ensures
            r == (if self@.len() == 0 {
                None
            } else {
                Some(self@[0].0)
            }),
    {
        if self.items.len() == 0 {
            None
        } else {
            Some(self.items[0].0)
        }
    }

    /// Take out the responders of the entries up to `upto`, inclusive.
    pub fn drain_upto(&mut self, upto: u64) -> (r: Vec<(u64, T)>)
        ensures
            r@ == seqs::keep_if(old(self)@, is_upto(upto)),
            final(self)@ == seqs::keep_if(old(self)@, is_after(upto)),
    {
        let mut rest: Vec<(u64, T)> = Vec::new();
        let mut out: Vec<(u64, T)> = Vec::new();
        let ghost all = self.items@;
        let mut kept: Vec<(u64, T)> = Vec::new();
        std::mem::swap(&mut self.items, &mut rest);
        let ghost mut done: int = 0;
        while rest.len() > 0
            invariant
                0 <= done <= all.len(),
                rest@ == all.skip(done),
                out@ == seqs::keep_if(all.take(done), is_upto(upto)),
                kept@ == seqs::keep_if(all.take(done), is_after(upto)),
            decreases rest.len(),
        {
            let x = rest.remove(0);
            proof {
                assert(x == all[done]);
                assert(all.take(done + 1) =~= all.take(done).push(x));
                seqs::keep_if_push(all.take(done), x, is_upto(upto));
                seqs::keep_if_push(all.take(done), x, is_after(upto));
                done = done + 1;
                assert(rest@ =~= all.skip(done));
            }
            if x.0 <= upto {
                out.push(x);
            } else {
                kept.push(x);
            }
        }
        assert(all.take(done) =~= all);
        self.items = kept;
        out
    }

    /// Take out the responders of the entries from `since` on.
    pub fn drain_from(&mut self, since: u64) -> (r: Vec<(u64, T)>)
        ensures
            r@ == seqs::keep_if(old(self)@, is_since(since)),
            final(self)@ == seqs::keep_if(old(self)@, is_before(since)),
    {
        let mut rest: Vec<(u64, T)> = Vec::new();
        let mut out: Vec<(u64, T)> = Vec::new();
        let ghost all = self.items@;
        let mut kept: Vec<(u64, T)> = Vec::new();
        std::mem::swap(&mut self.items, &mut rest);
        let ghost mut done: int = 0;
        while rest.len() > 0
            invariant
                0 <= done <= all.len(),
                rest@ == all.skip(done),
                out@ == seqs::keep_if(all.take(done), is_since(since)),
                kept@ == seqs::keep_if(all.take(done), is_before(since)),
            decreases rest.len(),
        {
            let x = rest.remove(0);
            proof {
                assert(x == all[done]);
                assert(all.take(done + 1) =~= all.take(done).push(x));
                seqs::keep_if_push(all.take(done), x, is_since(since));
                seqs::keep_if_push(all.take(done), x, is_before(since));
                done = done + 1;
                assert(rest@ =~= all.skip(done));
            }
            if x.0 >= since {
                out.push(x);
            } else {
                kept.push(x);
            }
        }
        assert(all.take(done) =~= all);
        self.items = kept;
        out
    }
}

/// A responder leaves the queue exactly once: draining up to an index and then from the next one
/// hands out every responder, and each of them in one of the two drains only.
pub proof fn drains_are_complete<T>(q: Seq<(u64, T)>, upto: u64)
    requires
        upto < u64::MAX,
    ensures
        seqs::keep_if(q, is_upto(upto)).len() + seqs::keep_if(q, is_since((upto + 1) as u64)).len()
            == q.len(),
        forall|x: (u64, T)|
            #![trigger q.contains(x)]
            q.contains(x) <==> seqs::keep_if(q, is_upto(upto)).contains(x) || seqs::keep_if(
                q,
                is_since((upto + 1) as u64),
            ).contains(x),
        forall|x: (u64, T)|
            #![trigger seqs::keep_if(q, is_upto(upto)).contains(x)]
            !(seqs::keep_if(q, is_upto(upto)).contains(x) && seqs::keep_if(
                q,
                is_since((upto + 1) as u64),
            ).contains(x)),
{
    let f = is_upto::<T>(upto);
    let g = is_since::<T>((upto + 1) as u64);
    seqs::keep_if_splits(q, f, g);
    assert forall|x: (u64, T)| q.contains(x) <==> seqs::keep_if(q, f).contains(x) || seqs::keep_if(
        q,
        g,
    ).contains(x) by {
        seqs::keep_if_contains(q, f, x);
        seqs::keep_if_contains(q, g, x);
    }
    assert forall|x: (u64, T)| !(seqs::keep_if(q, f).contains(x) && seqs::keep_if(q, g).contains(x)) by {
        seqs::keep_if_contains(q, f, x);
        seqs::keep_if_contains(q, g, x);
    }
}

/// A responder joins at the end; those of the entries up to an index, or from an index on, are taken
/// out, and the others stay.
pub proof fn queue_calls<T>(
    q: &mut ClientResponderQueue<T>,
    index: u64,
    responder: T,
    pushed: (),
    r: Vec<(u64, T)>,
    w: (u64, T),
    seen: ClientResponderQueue<T>,
    first: Option<u64>,
)
    ensures
        call_ensures(ClientResponderQueue::<T>::push, (q, index, responder), pushed) ==> final(q)@
            == old(q)@.push((index, responder)),
        call_ensures(ClientResponderQueue::<T>::drain_upto, (q, index), r) ==> {
            &&& r@.contains(w) <==> old(q)@.contains(w) && w.0 <= index
            &&& final(q)@.contains(w) <==> old(q)@.contains(w) && w.0 > index
            &&& r@.len() + final(q)@.len() == old(q)@.len()
        },
        call_ensures(ClientResponderQueue::<T>::drain_from, (q, index), r) ==> {
            &&& r@.contains(w) <==> old(q)@.contains(w) && w.0 >= index
            &&& final(q)@.contains(w) <==> old(q)@.contains(w) && w.0 < index
            &&& r@.len() + final(q)@.len() == old(q)@.len()
        },
        call_ensures(ClientResponderQueue::<T>::first_index, (&seen,), first) ==> {
            &&& seen@.len() == 0 ==> first is None
            &&& seen@.len() > 0 ==> first == Some(seen@[0].0)
        },
{
    let all = old(q)@;
    seqs::keep_if_contains(all, is_upto::<T>(index), w);
    seqs::keep_if_contains(all, is_after::<T>(index), w);
    seqs::keep_if_contains(all, is_since::<T>(index), w);
    seqs::keep_if_contains(all, is_before::<T>(index), w);
    seqs::keep_if_splits(all, is_upto::<T>(index), is_after::<T>(index));
    seqs::keep_if_splits(all, is_since::<T>(index), is_before::<T>(index));
}

} // verus!
