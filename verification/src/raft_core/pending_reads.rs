//! Linearizable reads that wait for a quorum to acknowledge the leader.

use vstd::prelude::*;
use crate::log_id::LogId;
use crate::seqs;
use crate::time::{Duration, Instant};

verus! {

/// The log id that a linearizable read must see applied: the first entry of the leader, or a later
/// committed one.
#[derive(Clone, Copy, Debug, PartialEq, Eq, Structural)]
pub struct ReadLogId {
    pub noop_log_id: LogId,
    pub committed: Option<LogId>,
}

impl ReadLogId {
    /// A read log id of its parts.
    pub fn new(noop_log_id: LogId, committed: Option<LogId>) -> (r: ReadLogId)
        ensures
            r == (ReadLogId { noop_log_id, committed }),
    {
        ReadLogId { noop_log_id, committed }
    }
}

/// What a read needs to know to be linearizable.
#[derive(Clone, Copy, Debug, PartialEq, Eq, Structural)]
pub struct Linearizer {
    pub node_id: u64,
    pub read_log_id: ReadLogId,
    pub applied: Option<LogId>,
}

/// A read that waits, and the reply channel on which it does.
#[derive(Clone, Copy, Debug, PartialEq, Eq, Structural)]
pub struct PendingRead {
    /// A quorum must acknowledge the leader after this time.
    pub min_quorum_acked_at: Instant,
    pub deadline: Instant,
    pub linearizer: Linearizer,
    pub tx: u64,
}

impl PendingRead {
    /// Whether an acknowledgement by a quorum at `acked_at` is fresh enough.
    pub open spec fn satisfied_by(self, acked_at: Instant) -> bool {
        self.min_quorum_acked_at.nanos < acked_at.nanos
    }

    /// Whether the read has waited too long at `now`.
    pub open spec fn expired_at(self, now: Instant) -> bool {
        self.deadline.nanos <= now.nanos
    }
}

/// The reads that an acknowledgement satisfies.
pub open spec fn satisfied(acked_at: Instant) -> spec_fn(PendingRead) -> bool {
    |p: PendingRead| p.satisfied_by(acked_at)
}

/// The reads that an acknowledgement does not satisfy.
pub open spec fn unsatisfied(acked_at: Instant) -> spec_fn(PendingRead) -> bool {
    |p: PendingRead| !p.satisfied_by(acked_at)
}

/// The reads that have waited too long.
pub open spec fn expired(now: Instant) -> spec_fn(PendingRead) -> bool {
    |p: PendingRead| p.expired_at(now)
}

/// The reads that may still wait.
pub open spec fn unexpired(now: Instant) -> spec_fn(PendingRead) -> bool {
    |p: PendingRead| !p.expired_at(now)
}

/// Reads that wait for a quorum to acknowledge the leader, in the order in which they came.
pub struct PendingReadQueue {
    pub items: Vec<PendingRead>,
}

impl View for PendingReadQueue {
    type V = Seq<PendingRead>;

    open spec fn view(&self) -> Seq<PendingRead> {
        self.items@
    }
}

/// The least deadline of the reads.
pub open spec fn earliest(reads: Seq<PendingRead>) -> Option<Instant>
    decreases reads.len(),
{
    if reads.len() == 0 {
        None
    } else {
        match earliest(reads.drop_last()) {
            None => Some(reads.last().deadline),
            Some(t) => if reads.last().deadline.nanos < t.nanos {
                Some(reads.last().deadline)
            } else {
                Some(t)
            },
        }
    }
}

/// The least deadline is that of a read, and no read has a lesser one.
pub proof fn earliest_is_least(reads: Seq<PendingRead>)
    ensures
        earliest(reads) is None <==> reads.len() == 0,
        earliest(reads) matches Some(t) ==> {
            &&& exists|i: int| 0 <= i < reads.len() && (#[trigger] reads[i]).deadline == t
            &&& forall|i: int|
                0 <= i < reads.len() ==> t.nanos <= (#[trigger] reads[i]).deadline.nanos
        },
    decreases reads.len(),
{
    if reads.len() > 0 {
        let t = reads.drop_last();
        earliest_is_least(t);
        assert forall|i: int| 0 <= i < t.len() implies #[trigger] reads[i] == t[i] by {}
        assert(reads[reads.len() - 1] == reads.last());
        match earliest(t) {
            None => {},
            Some(x) => {
                let k = choose|k: int| 0 <= k < t.len() && (#[trigger] t[k]).deadline == x;
                assert(reads[k].deadline == x);
            },
        }
    }
}

impl PendingReadQueue {
    /// A queue without reads.
    pub fn new() -> (r: PendingReadQueue)
        ensures
            r@ == Seq::<PendingRead>::empty(),
    {
        PendingReadQueue { items: Vec::new() }
    }

    /// Let a read wait.
    pub fn push(&mut self, read: PendingRead)
        ensures
            final(self)@ == old(self)@.push(read),
    {
        self.items.push(read);
    }

    /// The least deadline of the reads.
    pub fn earliest_deadline(&self) -> (r: Option<Instant>)
        ensures
            r == earliest(self@),
    {
        let mut r: Option<Instant> = None;
        let mut i: usize = 0;
        while i < self.items.len()
            invariant
                i <= self.items.len(),
                r == earliest(self@.take(i as int)),
            decreases self.items.len() - i,
        {
            let d = self.items[i].deadline;
            assert(self@.take(i + 1).drop_last() =~= self@.take(i as int));
            match r {
                None => {
                    r = Some(d);
                },
                Some(x) => {
                    if d.nanos < x.nanos {
                        r = Some(d);
                    }
                },
            }
            i = i + 1;
        }
        assert(self@.take(self.items.len() as int) =~= self@);
        r
    }

    /// Take out the reads that an acknowledgement by a quorum at `acked_at` satisfies.
    pub fn drain_satisfied(&mut self, acked_at: Instant) -> (r: Vec<PendingRead>)
        ensures
            r@ == seqs::keep_if(old(self)@, satisfied(acked_at)),
            final(self)@ == seqs::keep_if(old(self)@, unsatisfied(acked_at)),
    {
        let mut out: Vec<PendingRead> = Vec::new();
        let mut kept: Vec<PendingRead> = Vec::new();
        let mut i: usize = 0;
        let ghost all = self.items@;
        while i < self.items.len()
            invariant
                i <= self.items.len(),
                all == self.items@,
                out@ == seqs::keep_if(all.take(i as int), satisfied(acked_at)),
                kept@ == seqs::keep_if(all.take(i as int), unsatisfied(acked_at)),
            decreases self.items.len() - i,
        {
            let x = self.items[i];
            proof {
                assert(all.take(i + 1) =~= all.take(i as int).push(x));
                seqs::keep_if_push(all.take(i as int), x, satisfied(acked_at));
                seqs::keep_if_push(all.take(i as int), x, unsatisfied(acked_at));
            }
            if x.min_quorum_acked_at.nanos < acked_at.nanos {
                out.push(x);
            } else {
                kept.push(x);
            }
            i = i + 1;
        }
        assert(all.take(all.len() as int) =~= all);
        self.items = kept;
        out
    }

    /// Take out the reads that have waited too long at `now`.
    pub fn drain_expired(&mut self, now: Instant) -> (r: Vec<PendingRead>)
        ensures
            r@ == seqs::keep_if(old(self)@, expired(now)),
            final(self)@ == seqs::keep_if(old(self)@, unexpired(now)),
    {
        let mut out: Vec<PendingRead> = Vec::new();
        let mut kept: Vec<PendingRead> = Vec::new();
        let mut i: usize = 0;
        let ghost all = self.items@;
        while i < self.items.len()
            invariant
                i <= self.items.len(),
                all == self.items@,
                out@ == seqs::keep_if(all.take(i as int), expired(now)),
                kept@ == seqs::keep_if(all.take(i as int), unexpired(now)),
            decreases self.items.len() - i,
        {
            let x = self.items[i];
            proof {
                assert(all.take(i + 1) =~= all.take(i as int).push(x));
                seqs::keep_if_push(all.take(i as int), x, expired(now));
                seqs::keep_if_push(all.take(i as int), x, unexpired(now));
            }
            if x.deadline.nanos <= now.nanos {
                out.push(x);
            } else {
                kept.push(x);
            }
            i = i + 1;
        }
        assert(all.take(all.len() as int) =~= all);
        self.items = kept;
        out
    }

    /// Take out every read.
    pub fn drain_all(&mut self) -> (r: Vec<PendingRead>)
        ensures
            r@ == old(self)@,
            final(self)@ == Seq::<PendingRead>::empty(),
    {
        let mut out: Vec<PendingRead> = Vec::new();
        std::mem::swap(&mut self.items, &mut out);
        out
    }
}

/// A read that need not wait and a read that waits are held to the same freshness: an
/// acknowledgement is fresh enough for the one exactly if it is for the other.
pub proof fn freshness_agrees(now: Instant, acked_at: Instant, max_age: Duration, read: PendingRead)
    requires
        max_age.nanos <= now.nanos,
        read.min_quorum_acked_at.nanos == now.nanos - max_age.nanos,
    ensures
        now.nanos < acked_at.nanos + max_age.nanos <==> read.satisfied_by(acked_at),
{
}

/// With a zero age, no acknowledgement that was recorded up to now is fresh enough, not even one
/// at this very moment.
pub proof fn zero_age_needs_a_new_round(now: Instant, acked_at: Instant)
    requires
        acked_at.nanos <= now.nanos,
    ensures
        !(now.nanos < acked_at.nanos + 0),
{
}

/// A read that a fresh acknowledgement satisfies is answered even if its deadline has passed: no
/// satisfied read is left to expire.
pub proof fn satisfaction_comes_first(q: Seq<PendingRead>, acked_at: Instant, now: Instant, read: PendingRead)
    requires
        seqs::keep_if(seqs::keep_if(q, unsatisfied(acked_at)), expired(now)).contains(read),
    ensures
        q.contains(read),
        !read.satisfied_by(acked_at),
        read.expired_at(now),
{
    seqs::keep_if_contains(seqs::keep_if(q, unsatisfied(acked_at)), expired(now), read);
    seqs::keep_if_contains(q, unsatisfied(acked_at), read);
}

/// A read joins at the end.  Those that an acknowledgement confirms, or that are late, are taken out in
/// their order, and the others stay; the first deadline is the least of all.
pub proof fn queue_calls(
    q: &mut PendingReadQueue,
    read: PendingRead,
    pushed: (),
    t: Instant,
    r: Vec<PendingRead>,
    p: PendingRead,
    seen: PendingReadQueue,
    first: Option<Instant>,
)
    ensures
        call_ensures(PendingReadQueue::push, (q, read), pushed) ==> final(q)@ == old(q)@.push(read),
        call_ensures(PendingReadQueue::drain_satisfied, (q, t), r) ==> {
            &&& r@.contains(p) <==> old(q)@.contains(p) && p.min_quorum_acked_at.nanos < t.nanos
            &&& final(q)@.contains(p) <==> old(q)@.contains(p) && p.min_quorum_acked_at.nanos
                >= t.nanos
            &&& r@.len() + final(q)@.len() == old(q)@.len()
        },
        call_ensures(PendingReadQueue::drain_expired, (q, t), r) ==> {
            &&& r@.contains(p) <==> old(q)@.contains(p) && p.deadline.nanos <= t.nanos
            &&& final(q)@.contains(p) <==> old(q)@.contains(p) && p.deadline.nanos > t.nanos
            &&& r@.len() + final(q)@.len() == old(q)@.len()
        },
        call_ensures(PendingReadQueue::drain_all, (q,), r) ==> r@ == old(q)@ && final(q)@.len() == 0,
        call_ensures(PendingReadQueue::earliest_deadline, (&seen,), first) ==> {
            &&& first is None <==> seen@.len() == 0
            &&& seen@.contains(p) ==> first->0.nanos <= p.deadline.nanos
        },
{
    let all = old(q)@;
    seqs::keep_if_contains(all, satisfied(t), p);
    seqs::keep_if_contains(all, unsatisfied(t), p);
    seqs::keep_if_contains(all, expired(t), p);
    seqs::keep_if_contains(all, unexpired(t), p);
    seqs::keep_if_splits(all, satisfied(t), unsatisfied(t));
    seqs::keep_if_splits(all, expired(t), unexpired(t));
    earliest_is_least(seen@);
    if seen@.contains(p) {
        let i = choose|i: int| 0 <= i < seen@.len() && seen@[i] == p;
        assert(seen@[i].deadline == p.deadline);
    }
}

} // verus!
