//! The log store in memory.

use std::collections::BTreeMap;
use vstd::prelude::*;
use vstd::string::*;
use crate::entry::Entry;
use crate::errors::storage_error::{io_error_kind, io_error_other, io_error_payload, IoErrorKind};
use crate::log_id::LogId;
use crate::log_id;
use crate::sets;
use crate::testing::memstore;
use crate::testing::memstore::{BlockConfig, BlockDelays, BlockOperation, MemPayload};
use crate::time::Duration;
use crate::vote::Vote;

verus! {

broadcast use vstd::std_specs::btree::group_btree_axioms;

/// The error of a read that was told to fail.
pub const ERR_LIMITED_GET: &'static str = "injected limited_get_log_entries error";

/// An end of a range of indexes.
#[derive(Clone, Copy, Debug, PartialEq, Eq, Structural)]
pub enum IndexBound {
    Included(u64),
    Excluded(u64),
    Unbounded,
}

/// A range of indexes.
#[derive(Clone, Copy, Debug, PartialEq, Eq, Structural)]
pub struct IndexRange {
    pub from: IndexBound,
    pub to: IndexBound,
}

impl IndexRange {
    /// Whether an index is in the range.
    pub open spec fn has(self, i: u64) -> bool {
        &&& match self.from {
            IndexBound::Included(a) => a <= i,
            IndexBound::Excluded(a) => a < i,
            IndexBound::Unbounded => true,
        }
        &&& match self.to {
            IndexBound::Included(b) => i <= b,
            IndexBound::Excluded(b) => i < b,
            IndexBound::Unbounded => true,
        }
    }

    /// Whether the range does not end before it starts.
    pub open spec fn in_order(self) -> bool {
        match (self.from, self.to) {
            (IndexBound::Unbounded, _) => true,
            (_, IndexBound::Unbounded) => true,
            (IndexBound::Included(a), IndexBound::Included(b)) => a <= b,
            (IndexBound::Included(a), IndexBound::Excluded(b)) => a <= b,
            (IndexBound::Excluded(a), IndexBound::Included(b)) => a <= b,
            (IndexBound::Excluded(a), IndexBound::Excluded(b)) => a < b,
        }
    }

    fn admits(&self, i: u64) -> (r: bool)
        ensures
            r == self.has(i),
    {
        let after = match self.from {
            IndexBound::Included(a) => a <= i,
            IndexBound::Excluded(a) => a < i,
            IndexBound::Unbounded => true,
        };
        let before = match self.to {
            IndexBound::Included(b) => i <= b,
            IndexBound::Excluded(b) => i < b,
            IndexBound::Unbounded => true,
        };
        after && before
    }
}

/// The first and the last position of the log.
#[derive(Clone, Copy, Debug, PartialEq, Eq, Structural)]
pub struct LogState {
    pub last_purged_log_id: Option<LogId>,
    pub last_log_id: Option<LogId>,
}

/// The entries of a log after others were appended: each stands at its index, in place of one that
/// stood there.
pub open spec fn appended(
    log: Map<u64, Entry<MemPayload>>,
    entries: Seq<Entry<MemPayload>>,
) -> Map<u64, Entry<MemPayload>>
    decreases entries.len(),
{
    if entries.len() == 0 {
        log
    } else {
        let e = entries.last();
        appended(log, entries.drop_last()).insert(e.log_id.index, e)
    }
}

/// The entries of a log whose index is in a range, in the order of their indexes, where `keys` are
/// those indexes.
pub open spec fn reads(
    r: Seq<Entry<MemPayload>>,
    keys: Seq<u64>,
    log: Map<u64, Entry<MemPayload>>,
    range: IndexRange,
) -> bool {
    &&& sets::lists(keys, log.dom().filter(|i: u64| range.has(i)))
    &&& r.len() == keys.len()
    &&& forall|i: int|
        0 <= i < r.len() ==> memstore::entry_view(#[trigger] r[i]) == memstore::entry_view(
            log[keys[i]],
        )
}

/// The entries of a log whose index is in a range, in the order of their indexes.
pub open spec fn reads_range(
    r: Seq<Entry<MemPayload>>,
    log: Map<u64, Entry<MemPayload>>,
    range: IndexRange,
) -> bool {
    exists|keys: Seq<u64>| reads(r, keys, log, range)
}

/// The log store in memory.
pub struct MemLogStore {
    pub last_purged_log_id: Option<LogId>,
    /// Whether the committed log id is stored.
    pub enable_saving_committed: bool,
    pub committed: Option<LogId>,
    pub log: BTreeMap<u64, Entry<MemPayload>>,
    pub block: BlockConfig,
    pub vote: Option<Vote>,
    /// Whether a limited read returns nothing.
    pub return_empty_limited_get: bool,
    /// Whether the next limited read fails.
    pub fail_next_limited_get: bool,
}

impl MemLogStore {
    /// Whether the store holds nothing yet.
    pub open spec fn fresh(self) -> bool {
        &&& self.last_purged_log_id is None
        &&& self.enable_saving_committed
        &&& self.committed is None
        &&& self.log@ == Map::<u64, Entry<MemPayload>>::empty()
        &&& self.vote is None
        &&& !self.return_empty_limited_get
        &&& !self.fail_next_limited_get
    }

    /// Every entry stands at its index.
    pub open spec fn wf(self) -> bool {
        forall|i: u64| #[trigger] self.log@.contains_key(i) ==> self.log@[i].log_id.index == i
    }

    /// Whether two stores are the same but for their log.
    pub open spec fn same_but_log(self, other: MemLogStore) -> bool {
        &&& self.last_purged_log_id == other.last_purged_log_id
        &&& self.enable_saving_committed == other.enable_saving_committed
        &&& self.committed == other.committed
        &&& self.block == other.block
        &&& self.vote == other.vote
        &&& self.return_empty_limited_get == other.return_empty_limited_get
        &&& self.fail_next_limited_get == other.fail_next_limited_get
    }

    /// A store that holds nothing.
    pub fn new(block: BlockConfig) -> (r: MemLogStore)
        ensures
            r.fresh(),
            r.wf(),
            r.block == block,
    {
        MemLogStore {
            last_purged_log_id: None,
            enable_saving_committed: true,
            committed: None,
            log: BTreeMap::new(),
            block,
            vote: None,
            return_empty_limited_get: false,
            fail_next_limited_get: false,
        }
    }

    /// Let limited reads return nothing, or not.
    pub fn set_return_empty_limited_get(&mut self, value: bool)
        ensures
            *final(self) == (MemLogStore { return_empty_limited_get: value, ..*old(self) }),
    {
        self.return_empty_limited_get = value;
    }

    /// Let the next limited read fail, or not.
    pub fn set_fail_next_limited_get(&mut self, value: bool)
        ensures
            *final(self) == (MemLogStore { fail_next_limited_get: value, ..*old(self) }),
    {
        self.fail_next_limited_get = value;
    }

    /// The entries whose index is in a range, in the order of their indexes.
    pub fn try_get_log_entries(&self, range: IndexRange) -> (r: Vec<Entry<MemPayload>>)
        requires
            range.in_order(),
        ensures
            reads_range(r@, self.log@, range),
    {
        let all = sets::map_keys(&self.log);
        let mut r: Vec<Entry<MemPayload>> = Vec::new();
        let ghost mut keys = Seq::<u64>::empty();
        let mut i: usize = 0;
        while i < all.len()
            invariant
                i <= all.len(),
                sets::lists(all@, self.log@.dom()),
                r@.len() == keys.len(),
                forall|k: int|
                    0 <= k < keys.len() ==> memstore::entry_view(#[trigger] r@[k])
                        == memstore::entry_view(self.log@[keys[k]]),
                forall|k: int|
                    0 <= k < keys.len() ==> range.has(#[trigger] keys[k])
                        && self.log@.contains_key(keys[k]) && (i < all.len() ==> keys[k] < all[i as int]),
                forall|a: int, b: int| 0 <= a < b < keys.len() ==> keys[a] < keys[b],
                forall|k: int|
                    0 <= k < i && range.has(#[trigger] all[k]) ==> keys.contains(all[k]),
            decreases all.len() - i,
        {
            let k = all[i];
            proof {
                sets::listed(all@, self.log@.dom(), k);
                assert(all@.contains(all@[i as int]));
            }
            if range.admits(k) {
                let ghost before = keys;
                if let Some(e) = self.log.get(&k) {
                    r.push(memstore::entry_duplicate(e));
                    proof {
                        keys = keys.push(k);
                        assert(keys[before.len() as int] == k);
                        assert forall|j: int| 0 <= j < i + 1 && range.has(#[trigger] all[j]) implies
                            keys.contains(all[j]) by {
                            if j < i {
                                let x = choose|x: int| 0 <= x < before.len() && before[x] == all[j];
                                assert(keys[x] == all[j]);
                            }
                        }
                    }
                }
            }
            i = i + 1;
        }
        proof {
            let set = self.log@.dom().filter(|i: u64| range.has(i));
            assert forall|x: u64| keys.to_set().contains(x) <==> set.contains(x) by {
                if set.contains(x) {
                    sets::listed(all@, self.log@.dom(), x);
                    let j = choose|j: int| 0 <= j < all@.len() && #[trigger] all@[j] == x;
                    assert(range.has(all[j]));
                    assert(keys.contains(x));
                }
                if keys.to_set().contains(x) {
                    let j = choose|j: int| 0 <= j < keys.len() && #[trigger] keys[j] == x;
                    assert(range.has(keys[j]));
                }
            }
            assert(keys.to_set() =~= set);
            assert(reads(r@, keys, self.log@, range));
        }
        r
    }

    /// The vote that was saved last.
    pub fn read_vote(&self) -> (r: Option<Vote>)
        ensures
            r == self.vote,
    {
        self.vote
    }

    /// The entries from `start` up to but without `end`, unless the store was told to fail or to
    /// return nothing.
    pub fn limited_get_log_entries(&mut self, start: u64, end: u64) -> (r: Result<
        Vec<Entry<MemPayload>>,
        std::io::Error,
    >)
        requires
            old(self).fail_next_limited_get || old(self).return_empty_limited_get || start <= end,
        ensures
            *final(self) == (MemLogStore { fail_next_limited_get: false, ..*old(self) }),
            if old(self).fail_next_limited_get {
                &&& r matches Err(e)
                &&& io_error_payload(e) == Some(ERR_LIMITED_GET@)
                &&& io_error_kind(e) == Some(IoErrorKind::Other)
            } else if old(self).return_empty_limited_get {
                r matches Ok(entries) && entries@.len() == 0
            } else {
                r matches Ok(entries) && reads_range(
                    entries@,
                    old(self).log@,
                    IndexRange {
                        from: IndexBound::Included(start),
                        to: IndexBound::Excluded(end),
                    },
                )
            },
    {
        if self.fail_next_limited_get {
            self.fail_next_limited_get = false;
            return Err(io_error_other(ERR_LIMITED_GET.to_owned()));
        }
        if self.return_empty_limited_get {
            return Ok(Vec::new());
        }
        let range = IndexRange {
            from: IndexBound::Included(start),
            to: IndexBound::Excluded(end),
        };
        Ok(self.try_get_log_entries(range))
    }

    /// The last entry of the log, or what was purged last.
    pub open spec fn is_last(self, last: Option<LogId>) -> bool {
        if self.log@.dom() =~= Set::empty() {
            last == self.last_purged_log_id
        } else {
            exists|i: u64| #[trigger]
                self.log@.contains_key(i) && last == Some(self.log@[i].log_id) && forall|j: u64|
                    #[trigger] self.log@.contains_key(j) ==> j <= i
        }
    }

    /// The first and the last position of the log: without an entry, the last one is what was purged
    /// last.
    pub fn get_log_state(&self) -> (r: LogState)
        ensures
            r.last_purged_log_id == self.last_purged_log_id,
            self.is_last(r.last_log_id),
    {
        let keys = sets::map_keys(&self.log);
        let n: usize = keys.len();
        let last = if n == 0 {
            proof {
                assert(keys@.to_set() =~= Set::empty());
            }
            self.last_purged_log_id
        } else {
            let k = keys[n - 1];
            proof {
                assert(keys@.contains(k));
                sets::listed(keys@, self.log@.dom(), k);
                assert forall|j: u64| #[trigger] self.log@.contains_key(j) implies j <= k by {
                    sets::listed(keys@, self.log@.dom(), j);
                }
            }
            match self.log.get(&k) {
                Some(e) => Some(e.log_id),
                None => None,
            }
        };
        LogState { last_purged_log_id: self.last_purged_log_id, last_log_id: last }
    }

    /// Save a vote.
    pub fn save_vote(&mut self, vote: &Vote)
        ensures
            *final(self) == (MemLogStore { vote: Some(*vote), ..*old(self) }),
    {
        self.vote = Some(*vote);
    }

    /// Save the committed log id, if that is enabled.
    pub fn save_committed(&mut self, committed: Option<LogId>)
        ensures
            *final(self) == (if old(self).enable_saving_committed {
                MemLogStore { committed, ..*old(self) }
            } else {
                *old(self)
            }),
    {
        if self.enable_saving_committed {
            self.committed = committed;
        }
    }

    /// The committed log id that is read.
    pub open spec fn committed_read(self) -> Option<LogId> {
        if self.enable_saving_committed {
            self.committed
        } else {
            None
        }
    }

    /// The committed log id that was saved last, if that is enabled.
    pub fn read_committed(&self) -> (r: Option<LogId>)
        ensures
            r == self.committed_read(),
    {
        if self.enable_saving_committed {
            self.committed
        } else {
            None
        }
    }

    /// Append entries.
    pub fn append(&mut self, entries: Vec<Entry<MemPayload>>)
        requires
            old(self).wf(),
        ensures
            final(self).wf(),
            final(self).log@ == appended(old(self).log@, entries@),
            final(self).same_but_log(*old(self)),
    {
        let ghost log = self.log@;
        let ghost all = entries@;
        let mut rest = entries;
        let ghost mut i: int = 0;
        assert(all.take(0) =~= Seq::empty());
        assert(all.skip(0) =~= all);
        while rest.len() > 0
            invariant
                0 <= i <= all.len(),
                rest@ == all.skip(i),
                self.wf(),
                self.same_but_log(*old(self)),
                self.log@ == appended(log, all.take(i)),
            decreases rest.len(),
        {
            let e = rest.remove(0);
            proof {
                assert(rest@ =~= all.skip(i + 1));
                assert(e == all[i]);
                assert(all.take(i + 1).drop_last() =~= all.take(i));
                assert(all.take(i + 1).last() == e);
            }
            self.log.insert(e.log_id.index, e);
            proof {
                i = i + 1;
            }
        }
        assert(all.take(i) =~= all);
    }

    fn remove_where(&mut self, from: u64, to: Option<u64>)
        ensures
            final(self).log@ == old(self).log@.restrict(
                Set::new(
                    |i: u64|
                        !(from <= i && (match to {
                            Some(t) => i <= t,
                            None => true,
                        })),
                ),
            ),
            final(self).same_but_log(*old(self)),
    {
        let ghost before = self.log@;
        let keys = sets::map_keys(&self.log);
        let mut i: usize = 0;
        while i < keys.len()
            invariant
                i <= keys.len(),
                sets::lists(keys@, before.dom()),
                self.same_but_log(*old(self)),
                forall|k: u64| #[trigger]
                    self.log@.contains_key(k) ==> before.contains_key(k) && self.log@[k]
                        == before[k],
                forall|k: u64| #[trigger]
                    before.contains_key(k) && !self.log@.contains_key(k) ==> from <= k && (
                    match to {
                        Some(t) => k <= t,
                        None => true,
                    }),
                forall|j: int|
                    #![trigger keys[j]]
                    0 <= j < i ==> (from <= keys[j] && (match to {
                        Some(t) => keys[j] <= t,
                        None => true,
                    }) ==> !self.log@.contains_key(keys[j])),
            decreases keys.len() - i,
        {
            let k = keys[i];
            let hit = from <= k && (match to {
                Some(t) => k <= t,
                None => true,
            });
            if hit {
                self.log.remove(&k);
            }
            i = i + 1;
        }
        proof {
            let kept = before.restrict(
                Set::new(
                    |i: u64|
                        !(from <= i && (match to {
                            Some(t) => i <= t,
                            None => true,
                        })),
                ),
            );
            assert forall|k: u64| self.log@.contains_key(k) <==> kept.contains_key(k) by {
                if before.contains_key(k) {
                    sets::listed(keys@, before.dom(), k);
                    let j = choose|j: int| 0 <= j < keys@.len() && #[trigger] keys@[j] == k;
                    assert(keys[j] == k);
                }
            }
            assert(self.log@ =~= kept);
        }
    }

    /// Remove the entries after a position; without a position, every entry.
    pub fn truncate_after(&mut self, last_log_id: Option<LogId>)
        requires
            old(self).wf(),
            last_log_id matches Some(l) ==> l.index < u64::MAX,
        ensures
            final(self).wf(),
            final(self).log@ == old(self).log@.restrict(
                Set::new(|i: u64| last_log_id matches Some(l) && i <= l.index),
            ),
            final(self).same_but_log(*old(self)),
    {
        let start: u64 = match last_log_id {
            Some(l) => l.index + 1,
            None => 0,
        };
        self.remove_where(start, None);
        assert(self.log@ =~= old(self).log@.restrict(
            Set::new(|i: u64| last_log_id matches Some(l) && i <= l.index),
        ));
    }

    /// How long purging is delayed, if it is.
    pub fn purge_delay(&self, delays: &BlockDelays) -> (r: Option<Duration>)
        ensures
            r == delays.delay(BlockOperation::PurgeLog),
    {
        self.block.get_blocking(delays, &BlockOperation::PurgeLog)
    }

    /// Remove the entries up to a position, which must not be before what was purged last.
    pub fn purge(&mut self, log_id: LogId)
        requires
            old(self).wf(),
            log_id::opt_at_most(old(self).last_purged_log_id, Some(log_id)),
        ensures
            final(self).wf(),
            final(self).last_purged_log_id == Some(log_id),
            final(self).log@ == old(self).log@.restrict(Set::new(|i: u64| i > log_id.index)),
            final(self).same_but_log(
                MemLogStore { last_purged_log_id: Some(log_id), ..*old(self) },
            ),
    {
        self.last_purged_log_id = Some(log_id);
        self.remove_where(0, Some(log_id.index));
        assert(self.log@ =~= old(self).log@.restrict(Set::new(|i: u64| i > log_id.index)));
    }
}

/// What was appended is read: the last of the appended entries at an index stands there, and where
/// no entry was appended nothing has changed.
pub proof fn appended_entries_are_read(
    log: Map<u64, Entry<MemPayload>>,
    entries: Seq<Entry<MemPayload>>,
    i: int,
    other: u64,
)
    requires
        0 <= i < entries.len(),
        forall|j: int| i < j < entries.len() ==> entries[j].log_id.index != entries[i].log_id.index,
        forall|j: int| 0 <= j < entries.len() ==> entries[j].log_id.index != other,
    ensures
        appended(log, entries).contains_key(entries[i].log_id.index),
        appended(log, entries)[entries[i].log_id.index] == entries[i],
        appended(log, entries).contains_key(other) == log.contains_key(other),
        log.contains_key(other) ==> appended(log, entries)[other] == log[other],
    decreases entries.len(),
{
    let rest = entries.drop_last();
    lemma_untouched(log, entries, other);
    if i < entries.len() - 1 {
        assert(rest[i] == entries[i]);
        appended_entries_are_read(log, rest, i, other);
    }
}

proof fn lemma_untouched(
    log: Map<u64, Entry<MemPayload>>,
    entries: Seq<Entry<MemPayload>>,
    other: u64,
)
    requires
        forall|j: int| 0 <= j < entries.len() ==> entries[j].log_id.index != other,
    ensures
        appended(log, entries).contains_key(other) == log.contains_key(other),
        log.contains_key(other) ==> appended(log, entries)[other] == log[other],
    decreases entries.len(),
{
    if entries.len() > 0 {
        lemma_untouched(log, entries.drop_last(), other);
    }
}

/// Whether an entry has an index.
pub open spec fn has_index(entries: Seq<Entry<MemPayload>>, i: int, index: u64) -> bool {
    0 <= i < entries.len() && entries[i].log_id.index == index
}

proof fn lemma_appended_keys(
    log: Map<u64, Entry<MemPayload>>,
    entries: Seq<Entry<MemPayload>>,
    index: u64,
)
    ensures
        appended(log, entries).contains_key(index) <==> log.contains_key(index) || exists|i: int|
            has_index(entries, i, index),
    decreases entries.len(),
{
    if entries.len() > 0 {
        let rest = entries.drop_last();
        lemma_appended_keys(log, rest, index);
        if exists|i: int| has_index(rest, i, index) {
            let i = choose|i: int| has_index(rest, i, index);
            assert(has_index(entries, i, index));
        }
        if entries.last().log_id.index == index {
            assert(has_index(entries, entries.len() - 1, index));
        }
        if exists|i: int| has_index(entries, i, index) {
            let i = choose|i: int| has_index(entries, i, index);
            if i < rest.len() {
                assert(has_index(rest, i, index));
            }
        }
    }
}

/// What was written is what is read: where entries with increasing indexes were appended, a read of
/// a range that holds their indexes and no other index of the log gives just these entries.
pub proof fn read_gives_back_the_write(
    log: Map<u64, Entry<MemPayload>>,
    entries: Seq<Entry<MemPayload>>,
    range: IndexRange,
    r: Seq<Entry<MemPayload>>,
)
    requires
        forall|i: int, j: int|
            0 <= i < j < entries.len() ==> entries[i].log_id.index < entries[j].log_id.index,
        forall|i: int| 0 <= i < entries.len() ==> range.has(#[trigger] entries[i].log_id.index),
        forall|k: u64| #[trigger]
            log.contains_key(k) && range.has(k) ==> exists|i: int| has_index(entries, i, k),
        reads_range(r, appended(log, entries), range),
    ensures
        r.len() == entries.len(),
        forall|i: int|
            0 <= i < r.len() ==> memstore::entry_view(#[trigger] r[i]) == memstore::entry_view(
                entries[i],
            ),
{
    let after = appended(log, entries);
    let set = after.dom().filter(|i: u64| range.has(i));
    let keys = choose|keys: Seq<u64>| reads(r, keys, after, range);
    let indexes = entries.map_values(|e: Entry<MemPayload>| e.log_id.index);
    assert forall|k: u64| indexes.to_set().contains(k) <==> set.contains(k) by {
        lemma_appended_keys(log, entries, k);
        if indexes.to_set().contains(k) {
            let i = choose|i: int| 0 <= i < indexes.len() && indexes[i] == k;
            assert(has_index(entries, i, k));
            assert(range.has(entries[i].log_id.index));
        }
        if set.contains(k) {
            assert(exists|i: int| has_index(entries, i, k));
            let i = choose|i: int| has_index(entries, i, k);
            assert(indexes[i] == k);
        }
    }
    assert(indexes.to_set() =~= set);
    assert(sets::lists(indexes, set));
    sets::listing_is_unique(keys, indexes, set);
    assert forall|i: int| 0 <= i < r.len() implies memstore::entry_view(#[trigger] r[i])
        == memstore::entry_view(entries[i]) by {
        assert(keys[i] == entries[i].log_id.index);
        lemma_value(log, entries, i);
    }
}

proof fn lemma_value(
    log: Map<u64, Entry<MemPayload>>,
    entries: Seq<Entry<MemPayload>>,
    i: int,
)
    requires
        0 <= i < entries.len(),
        forall|j: int| i < j < entries.len() ==> entries[j].log_id.index != entries[i].log_id.index,
    ensures
        appended(log, entries)[entries[i].log_id.index] == entries[i],
    decreases entries.len(),
{
    let rest = entries.drop_last();
    if i < entries.len() - 1 {
        assert(rest[i] == entries[i]);
        lemma_value(log, rest, i);
    }
}

/// A range is read in one way only: two reads of it give the same entries.
pub proof fn reads_agree(
    a: Seq<Entry<MemPayload>>,
    b: Seq<Entry<MemPayload>>,
    log: Map<u64, Entry<MemPayload>>,
    range: IndexRange,
)
    requires
        reads_range(a, log, range),
        reads_range(b, log, range),
    ensures
        a.len() == b.len(),
        forall|i: int|
            0 <= i < a.len() ==> memstore::entry_view(#[trigger] a[i]) == memstore::entry_view(
                b[i],
            ),
{
    let ka = choose|keys: Seq<u64>| reads(a, keys, log, range);
    let kb = choose|keys: Seq<u64>| reads(b, keys, log, range);
    sets::listing_is_unique(ka, kb, log.dom().filter(|i: u64| range.has(i)));
}

/// After a purge of every entry the log ends where it was purged.
pub proof fn purged_log_ends_at_the_purge(before: MemLogStore, after: MemLogStore, log_id: LogId)
    requires
        after.last_purged_log_id == Some(log_id),
        after.log@ == before.log@.restrict(Set::new(|i: u64| i > log_id.index)),
        forall|i: u64| #[trigger] before.log@.contains_key(i) ==> i <= log_id.index,
    ensures
        after.is_last(Some(log_id)),
{
    assert(after.log@.dom() =~= Set::empty());
}

/// A range holds an included bound and does not hold an excluded one; an open end has no bound.
pub proof fn ranges_hold_their_included_bounds(a: u64, b: u64, i: u64)
    ensures
        (IndexRange { from: IndexBound::Included(a), to: IndexBound::Unbounded }).has(i) <==> i >= a,
        (IndexRange { from: IndexBound::Excluded(a), to: IndexBound::Unbounded }).has(i) <==> i > a,
        (IndexRange { from: IndexBound::Unbounded, to: IndexBound::Included(b) }).has(i) <==> i <= b,
        (IndexRange { from: IndexBound::Unbounded, to: IndexBound::Excluded(b) }).has(i) <==> i < b,
        (IndexRange { from: IndexBound::Unbounded, to: IndexBound::Unbounded }).has(i),
        (IndexRange { from: IndexBound::Included(a), to: IndexBound::Included(b) }).has(i) <==> a <= i
            <= b,
        (IndexRange { from: IndexBound::Included(a), to: IndexBound::Excluded(b) }).has(i) <==> a <= i
            < b,
        (IndexRange { from: IndexBound::Excluded(a), to: IndexBound::Included(b) }).has(i) <==> a < i
            <= b,
        (IndexRange { from: IndexBound::Excluded(a), to: IndexBound::Excluded(b) }).has(i) <==> a < i
            < b,
{
}

/// A range that holds an index is in order, and so is one that ends where it starts unless both ends
/// are excluded.
pub proof fn ranges_that_hold_are_in_order(range: IndexRange, a: u64, b: u64, i: u64)
    ensures
        range.has(i) ==> range.in_order(),
        (IndexRange { from: IndexBound::Included(a), to: IndexBound::Excluded(a) }).in_order(),
        (IndexRange { from: IndexBound::Excluded(a), to: IndexBound::Included(a) }).in_order(),
        !(IndexRange { from: IndexBound::Excluded(a), to: IndexBound::Excluded(a) }).in_order(),
        a > b ==> !(IndexRange {
            from: IndexBound::Included(a),
            to: IndexBound::Included(b),
        }).in_order(),
        a > b ==> !(IndexRange {
            from: IndexBound::Included(a),
            to: IndexBound::Excluded(b),
        }).in_order(),
{
}

/// A read of a range gives every entry of the log whose index is in it, in the order of their
/// indexes, and no other.
pub proof fn reads_are_complete(
    r: Seq<Entry<MemPayload>>,
    log: Map<u64, Entry<MemPayload>>,
    range: IndexRange,
    index: u64,
    i: int,
    j: int,
)
    requires
        reads_range(r, log, range),
        forall|k: u64| #[trigger] log.contains_key(k) ==> log[k].log_id.index == k,
    ensures
        log.contains_key(index) && range.has(index) ==> exists|p: int|
            0 <= p < r.len() && memstore::entry_view(#[trigger] r[p]) == memstore::entry_view(
                log[index],
            ),
        0 <= i < r.len() ==> log.contains_key(r[i].log_id.index) && range.has(r[i].log_id.index),
        0 <= i < j < r.len() ==> r[i].log_id.index < r[j].log_id.index,
{
    let set = log.dom().filter(|k: u64| range.has(k));
    let keys = choose|keys: Seq<u64>| reads(r, keys, log, range);
    sets::listed(keys, set, index);
    if log.contains_key(index) && range.has(index) {
        let p = choose|p: int| 0 <= p < keys.len() && #[trigger] keys[p] == index;
        assert(memstore::entry_view(r[p]) == memstore::entry_view(log[keys[p]]));
    }
    if 0 <= i < r.len() {
        assert(keys.contains(keys[i]));
        sets::listed(keys, set, keys[i]);
        assert(memstore::entry_view(r[i]) == memstore::entry_view(log[keys[i]]));
    }
    if 0 <= i < j < r.len() {
        assert(keys.contains(keys[j]));
        sets::listed(keys, set, keys[j]);
        assert(memstore::entry_view(r[j]) == memstore::entry_view(log[keys[j]]));
    }
}

/// The log ends at its entry with the greatest index, and where there is no entry at what was purged
/// last.
pub proof fn log_ends_at_its_greatest_index(s: MemLogStore, last: Option<LogId>, index: u64)
    requires
        s.is_last(last),
    ensures
        s.log@.contains_key(index) && (forall|j: u64| #[trigger] s.log@.contains_key(j) ==> j <= index)
            ==> last == Some(s.log@[index].log_id),
        (forall|j: u64| !#[trigger] s.log@.contains_key(j)) ==> last == s.last_purged_log_id,
{
    if forall|j: u64| !#[trigger] s.log@.contains_key(j) {
        assert(s.log@.dom() =~= Set::empty());
    }
    if s.log@.contains_key(index) {
        assert(s.log@.dom().contains(index));
        assert(!Set::<u64>::empty().contains(index));
    }
}

/// What is committed is read back where it is stored, and nothing is where it is not.
pub proof fn committed_is_read_where_it_is_stored(s: MemLogStore)
    ensures
        s.enable_saving_committed ==> s.committed_read() == s.committed,
        !s.enable_saving_committed ==> s.committed_read() is None,
{
}

/// Stores that are the same but for their log agree on everything else; a fresh store holds nothing,
/// stores what is committed and lets reads succeed.
pub proof fn stores_agree_but_for_their_log(a: MemLogStore, b: MemLogStore)
    ensures
        a.same_but_log(b) ==> a.vote == b.vote && a.committed == b.committed && a.last_purged_log_id
            == b.last_purged_log_id && a.enable_saving_committed == b.enable_saving_committed
            && a.block == b.block && a.return_empty_limited_get == b.return_empty_limited_get
            && a.fail_next_limited_get == b.fail_next_limited_get,
        a.fresh() ==> a.vote is None && a.committed is None && a.last_purged_log_id is None
            && a.enable_saving_committed && !a.return_empty_limited_get && !a.fail_next_limited_get
            && forall|i: u64| !#[trigger] a.log@.contains_key(i),
{
}

/// The log after a cut: truncating keeps the entries up to a position, purging those after it, each as
/// it was; nothing else changes but that the purge is remembered.
pub proof fn cut_calls(
    s: &mut MemLogStore,
    last: Option<LogId>,
    upto: LogId,
    done: (),
    i: u64,
)
    ensures
        call_ensures(MemLogStore::truncate_after, (s, last), done) ==> {
            &&& final(s).log@.contains_key(i) <==> old(s).log@.contains_key(i) && last is Some && i
                <= last->0.index
            &&& final(s).log@.contains_key(i) ==> final(s).log@[i] == old(s).log@[i]
            &&& final(s).last_purged_log_id == old(s).last_purged_log_id
            &&& final(s).vote == old(s).vote && final(s).committed == old(s).committed
        },
        call_ensures(MemLogStore::purge, (s, upto), done) ==> {
            &&& final(s).log@.contains_key(i) <==> old(s).log@.contains_key(i) && i > upto.index
            &&& final(s).log@.contains_key(i) ==> final(s).log@[i] == old(s).log@[i]
            &&& final(s).last_purged_log_id == Some(upto)
            &&& final(s).vote == old(s).vote && final(s).committed == old(s).committed
        },
{
}

/// What is saved is read: the vote always, the committed log id where it is stored.
pub proof fn save_calls(
    s: &mut MemLogStore,
    vote: Vote,
    committed: Option<LogId>,
    done: (),
    read: Option<Vote>,
    got: Option<LogId>,
)
    ensures
        call_ensures(MemLogStore::save_vote, (s, &vote), done) ==> final(s).vote == Some(vote)
            && final(s).log@ == old(s).log@ && final(s).committed == old(s).committed
            && final(s).last_purged_log_id == old(s).last_purged_log_id,
        call_ensures(MemLogStore::save_committed, (s, committed), done) ==> {
            &&& old(s).enable_saving_committed ==> final(s).committed == committed
            &&& !old(s).enable_saving_committed ==> final(s).committed == old(s).committed
            &&& final(s).vote == old(s).vote && final(s).log@ == old(s).log@
            &&& final(s).enable_saving_committed == old(s).enable_saving_committed
        },
        call_ensures(MemLogStore::read_vote, (old(s),), read) ==> read == old(s).vote,
        call_ensures(MemLogStore::read_committed, (old(s),), got) ==> got == (if old(s).enable_saving_committed {
            old(s).committed
        } else {
            None
        }),
{
}

/// A limited read fails once where it was told to, else returns nothing where it was told to, else the
/// entries from its start up to but without its end.
pub proof fn limited_calls(
    s: &mut MemLogStore,
    start: u64,
    end: u64,
    r: Result<Vec<Entry<MemPayload>>, std::io::Error>,
)
    requires
        call_ensures(MemLogStore::limited_get_log_entries, (s, start, end), r),
    ensures
        r is Err <==> old(s).fail_next_limited_get,
        r is Err ==> io_error_payload(r->Err_0) == Some(
            "injected limited_get_log_entries error"@,
        ),
        r is Ok && old(s).return_empty_limited_get ==> r->Ok_0@.len() == 0,
        r is Ok && !old(s).return_empty_limited_get ==> reads_range(
            r->Ok_0@,
            old(s).log@,
            (IndexRange { from: IndexBound::Included(start), to: IndexBound::Excluded(end) }),
        ),
        !final(s).fail_next_limited_get,
        final(s).return_empty_limited_get == old(s).return_empty_limited_get,
        final(s).log@ == old(s).log@,
{
}

/// A new store holds nothing, stores what is committed and reads without hindrance; appending changes
/// nothing but the log.
pub proof fn store_calls(
    block: BlockConfig,
    new: MemLogStore,
    s: &mut MemLogStore,
    entries: Vec<Entry<MemPayload>>,
    done: (),
    i: u64,
    state: LogState,
)
    ensures
        call_ensures(MemLogStore::new, (block,), new) ==> {
            &&& !new.log@.contains_key(i) && new.vote is None && new.committed is None
            &&& new.last_purged_log_id is None && new.enable_saving_committed
            &&& !new.return_empty_limited_get && !new.fail_next_limited_get
        },
        call_ensures(MemLogStore::append, (s, entries), done) ==> {
            &&& final(s).log@ == appended(old(s).log@, entries@)
            &&& final(s).vote == old(s).vote && final(s).committed == old(s).committed
            &&& final(s).last_purged_log_id == old(s).last_purged_log_id
        },
        call_ensures(MemLogStore::get_log_state, (old(s),), state) ==> state.last_purged_log_id
            == old(s).last_purged_log_id && old(s).is_last(state.last_log_id),
{
}

} // verus!
