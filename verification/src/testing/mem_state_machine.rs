//! The state machine in memory.

use std::collections::{BTreeMap, BTreeSet};
use vstd::prelude::*;
use vstd::string::*;
use crate::entry::{Entry, EntryPayload};
use crate::errors::storage_error::{io_error_kind, io_error_new, io_error_payload, IoErrorKind};
use crate::log_id::{LeaderId, LogId};
use crate::membership::{Membership, MembershipView};
use crate::membership;
use crate::storage::{
    Snapshot, SnapshotMeta, SnapshotMetaView, StoredMembership, StoredMembershipView,
};
use crate::testing::memstore;
use crate::testing::memstore::{
    BlockConfig,
    BlockDelays,
    BlockOperation,
    ClientResponse,
    MemEntryView,
    MemPayload,
    MemPayloadView,
};
use crate::time::Duration;

verus! {

/// The status of each client.
#[derive(Clone, Debug, PartialEq, Eq)]
pub struct StatusMap {
    pub items: Vec<(String, String)>,
}

impl StatusMap {
    /// Whether a client stands at a position.
    pub open spec fn at(self, i: int, client: Seq<char>) -> bool {
        0 <= i < self.items@.len() && self.items@[i].0@ == client
    }

    /// Whether a client has a status.
    pub open spec fn has(self, client: Seq<char>) -> bool {
        exists|i: int| self.at(i, client)
    }

    /// No client occurs twice.
    pub open spec fn wf(self) -> bool {
        forall|i: int, j: int|
            0 <= i < j < self.items@.len() ==> self.items@[i].0@ != self.items@[j].0@
    }
}

impl View for StatusMap {
    type V = Map<Seq<char>, Seq<char>>;

    open spec fn view(&self) -> Map<Seq<char>, Seq<char>> {
        Map::new(
            |client: Seq<char>| self.has(client),
            |client: Seq<char>| self.items@[choose|i: int| self.at(i, client)].1@,
        )
    }
}

impl StatusMap {
    /// No client has a status.
    pub fn new() -> (r: StatusMap)
        ensures
            r.wf(),
            r@ == Map::<Seq<char>, Seq<char>>::empty(),
    {
        let r = StatusMap { items: Vec::new() };
        assert(r@ =~= Map::<Seq<char>, Seq<char>>::empty());
        r
    }

    /// The client at a position has the status at that position.
    proof fn lemma_at(self, i: int)
        requires
            self.wf(),
            0 <= i < self.items@.len(),
        ensures
            self@.contains_key(self.items@[i].0@),
            self@[self.items@[i].0@] == self.items@[i].1@,
    {
        let client = self.items@[i].0@;
        assert(self.at(i, client));
        let j = choose|j: int| self.at(j, client);
        assert(i == j);
    }

    /// Set the status of a client, and return the one that it had.
    pub fn insert(&mut self, client: String, status: String) -> (r: Option<String>)
        requires
            old(self).wf(),
        ensures
            final(self).wf(),
            final(self)@ == old(self)@.insert(client@, status@),
            match r {
                Some(s) => old(self)@.contains_key(client@) && old(self)@[client@] == s@,
                None => !old(self)@.contains_key(client@),
            },
    {
        let ghost before = *self;
        let n: usize = self.items.len();
        let mut i: usize = 0;
        while i < n
            invariant
                *self == before,
                before == *old(self),
                before.wf(),
                n == self.items@.len(),
                i <= n,
                forall|j: int| 0 <= j < i ==> before.items@[j].0@ != client@,
            decreases n - i,
        {
            if self.items[i].0 == client {
                let ghost new = before.items@.update(i as int, (client, status));
                let mut item = (client, status);
                let old_item = self.replace(i, item);
                proof {
                    let after = *self;
                    before.lemma_at(i as int);
                    assert forall|c: Seq<char>| after@.contains_key(c) <==> before@.insert(
                        client@,
                        status@,
                    ).contains_key(c) by {
                        if before.has(c) {
                            let j = choose|j: int| before.at(j, c);
                            assert(after.at(j, c));
                        }
                        if after.has(c) {
                            let j = choose|j: int| after.at(j, c);
                            assert(before.at(j, c));
                        }
                    }
                    assert forall|c: Seq<char>| after@.contains_key(c) implies #[trigger] after@[c]
                        == before@.insert(client@, status@)[c] by {
                        let j = choose|j: int| after.at(j, c);
                        after.lemma_at(j);
                        before.lemma_at(j);
                    }
                    assert(after@ =~= before@.insert(client@, status@));
                }
                return Some(old_item.1);
            }
            i = i + 1;
        }
        proof {
            if before.has(client@) {
                let j = choose|j: int| before.at(j, client@);
                assert(false);
            }
        }
        let ghost c0 = client@;
        let ghost s0 = status@;
        self.items.push((client, status));
        proof {
            let after = *self;
            assert(after.wf());
            assert forall|c: Seq<char>| after@.contains_key(c) <==> before@.insert(
                c0,
                s0,
            ).contains_key(c) by {
                if before.has(c) {
                    let j = choose|j: int| before.at(j, c);
                    assert(after.at(j, c));
                }
                if c == c0 {
                    assert(after.at(before.items@.len() as int, c));
                }
                if after.has(c) && c != c0 {
                    let j = choose|j: int| after.at(j, c);
                    assert(before.at(j, c));
                }
            }
            assert forall|c: Seq<char>| after@.contains_key(c) implies #[trigger] after@[c]
                == before@.insert(c0, s0)[c] by {
                let j = choose|j: int| after.at(j, c);
                after.lemma_at(j);
                if j < before.items@.len() {
                    before.lemma_at(j);
                }
            }
            assert(after@ =~= before@.insert(c0, s0));
        }
        None
    }

    fn replace(&mut self, i: usize, item: (String, String)) -> (r: (String, String))
        requires
            i < old(self).items@.len(),
        ensures
            r == old(self).items@[i as int],
            final(self).items@ == old(self).items@.update(i as int, item),
    {
        let mut item = item;
        let mut items: Vec<(String, String)> = Vec::new();
        std::mem::swap(&mut items, &mut self.items);
        let r = items.remove(i);
        items.insert(i, item);
        assert(items@ =~= old(self).items@.update(i as int, item));
        self.items = items;
        r
    }

    /// A copy.
    pub fn duplicate(&self) -> (r: StatusMap)
        requires
            self.wf(),
        ensures
            r.wf(),
            r@ == self@,
    {
        let mut r = StatusMap { items: Vec::new() };
        let n: usize = self.items.len();
        let mut i: usize = 0;
        while i < n
            invariant
                n == self.items@.len(),
                i <= n,
                r.items@.len() == i,
                forall|j: int|
                    0 <= j < i ==> (#[trigger] r.items@[j]).0@ == self.items@[j].0@
                        && r.items@[j].1@ == self.items@[j].1@,
            decreases n - i,
        {
            r.items.push(
                (self.items[i].0.as_str().to_owned(), self.items[i].1.as_str().to_owned()),
            );
            i = i + 1;
        }
        proof {
            assert(r.wf());
            assert forall|c: Seq<char>| r@.contains_key(c) <==> self@.contains_key(c) by {
                if r.has(c) {
                    let j = choose|j: int| r.at(j, c);
                    assert(self.at(j, c));
                }
                if self.has(c) {
                    let j = choose|j: int| self.at(j, c);
                    assert(r.at(j, c));
                }
            }
            assert forall|c: Seq<char>| r@.contains_key(c) implies #[trigger] r@[c] == self@[c] by {
                let j = choose|j: int| r.at(j, c);
                r.lemma_at(j);
                self.lemma_at(j);
            }
            assert(r@ =~= self@);
        }
        r
    }
}

/// What the state machine holds.
#[derive(Debug)]
pub struct MemStoreStateMachine {
    pub last_applied_log: Option<LogId>,
    pub last_membership: StoredMembership<()>,
    pub client_status: StatusMap,
}

/// What the state machine holds, as mathematics.
#[verifier::ext_equal]
pub struct MemStateView {
    pub last_applied_log: Option<LogId>,
    pub last_membership: StoredMembershipView<()>,
    pub client_status: Map<Seq<char>, Seq<char>>,
}

impl View for MemStoreStateMachine {
    type V = MemStateView;

    open spec fn view(&self) -> MemStateView {
        MemStateView {
            last_applied_log: self.last_applied_log,
            last_membership: self.last_membership@,
            client_status: self.client_status@,
        }
    }
}

impl MemStateView {
    /// What the state machine holds before anything was applied.
    pub open spec fn initial() -> MemStateView {
        MemStateView {
            last_applied_log: None,
            last_membership: StoredMembership::<()>::empty_view(),
            client_status: Map::empty(),
        }
    }

    /// What the state machine holds after an entry was applied.
    pub open spec fn applied(self, e: MemEntryView) -> MemStateView {
        MemStateView {
            last_applied_log: Some(e.log_id),
            last_membership: match e.payload {
                MemPayloadView::Membership(m) => StoredMembershipView {
                    log_id: Some(e.log_id),
                    membership: m,
                },
                _ => self.last_membership,
            },
            client_status: match e.payload {
                MemPayloadView::Normal(r) => self.client_status.insert(r.client, r.status),
                _ => self.client_status,
            },
        }
    }

    /// The response to an entry: the status that the client of a request had before.
    pub open spec fn response(self, e: MemEntryView) -> Option<Seq<char>> {
        match e.payload {
            MemPayloadView::Normal(r) => if self.client_status.contains_key(r.client) {
                Some(self.client_status[r.client])
            } else {
                None
            },
            _ => None,
        }
    }

    /// What the state machine holds after entries were applied one after the other.
    pub open spec fn applied_all(self, es: Seq<MemEntryView>) -> MemStateView
        decreases es.len(),
    {
        if es.len() == 0 {
            self
        } else {
            self.applied_all(es.drop_last()).applied(es.last())
        }
    }
}

impl MemStoreStateMachine {
    /// No client occurs twice.
    pub open spec fn wf(self) -> bool {
        self.client_status.wf()
    }

    /// A copy.
    pub fn duplicate(&self) -> (r: MemStoreStateMachine)
        requires
            self.wf(),
        ensures
            r.wf(),
            r@ == self@,
    {
        MemStoreStateMachine {
            last_applied_log: self.last_applied_log,
            last_membership: self.last_membership.duplicate(),
            client_status: self.client_status.duplicate(),
        }
    }

    /// Apply an entry.
    pub fn apply(&mut self, entry: &Entry<MemPayload>) -> (r: ClientResponse)
        requires
            old(self).wf(),
        ensures
            final(self).wf(),
            final(self)@ == old(self)@.applied(memstore::entry_view(*entry)),
            r@ == old(self)@.response(memstore::entry_view(*entry)),
    {
        self.last_applied_log = Some(entry.log_id);
        match &entry.payload {
            EntryPayload::Blank => ClientResponse(None),
            EntryPayload::Normal(data) => {
                let previous = self.client_status.insert(
                    data.client.as_str().to_owned(),
                    data.status.as_str().to_owned(),
                );
                ClientResponse(previous)
            },
            EntryPayload::Membership(mem) => {
                self.last_membership = StoredMembership::new(Some(entry.log_id), mem.duplicate());
                ClientResponse(None)
            },
        }
    }
}

impl Default for MemStoreStateMachine {
    /// A state machine to which nothing was applied.
    fn default() -> (r: MemStoreStateMachine)
        ensures
            r.wf(),
            r@ == MemStateView::initial(),
    {
        MemStoreStateMachine {
            last_applied_log: None,
            last_membership: StoredMembership::empty(),
            client_status: StatusMap::new(),
        }
    }
}

/// A log id as it is written: the term and the node of its leader, then its index.
pub type LogIdRow = ((u64, u64), u64);

/// What the state machine holds as it is written: the last entry that was applied, the last
/// membership, and the status of each client.
pub type StateRow = (
    Option<LogIdRow>,
    (Option<LogIdRow>, (Vec<BTreeSet<u64>>, BTreeMap<u64, ()>)),
    Vec<(String, String)>,
);

/// A row with the status of the clients as a map.
pub type WrittenRow = (
    Option<LogIdRow>,
    (Option<LogIdRow>, (Vec<BTreeSet<u64>>, BTreeMap<u64, ()>)),
    BTreeMap<String, String>,
);

/// The log id that a row stands for.
pub open spec fn log_id_of(row: Option<LogIdRow>) -> Option<LogId> {
    match row {
        Some(r) => Some(
            LogId { leader_id: LeaderId { term: r.0.0, node_id: r.0.1 }, index: r.1 },
        ),
        None => None,
    }
}

/// What a row stands for.
pub open spec fn state_of_row(row: StateRow) -> MemStateView {
    MemStateView {
        last_applied_log: log_id_of(row.0),
        last_membership: StoredMembershipView {
            log_id: log_id_of(row.1.0),
            membership: MembershipView {
                configs: membership::config_views(row.1.1.0@),
                nodes: row.1.1.1@,
            },
        },
        client_status: (StatusMap { items: row.2 })@,
    }
}

/// What data is read as, if it can be.
pub uninterp spec fn state_of_data(data: Seq<u8>) -> Option<MemStateView>;

/// What a state is written as.
pub uninterp spec fn data_of_state(state: MemStateView) -> Seq<u8>;

/// `bitcode::decode` on data that holds a row, the status of the clients as a map: the row, or an
/// error where the data holds none.
///
/// Nothing is claimed of the text of an error.
#[verifier::external_body]
fn decode_row(data: &Vec<u8>) -> (r: Result<StateRow, String>)
    ensures
        match r {
            Ok(row) => (StatusMap { items: row.2 }).wf() && state_of_data(data@) == Some(
                state_of_row(row),
            ),
            Err(_) => state_of_data(data@) is None,
        },
{
    match bitcode::decode::<WrittenRow>(data) {
        Ok((applied, stored, status)) => Ok((applied, stored, status.into_iter().collect())),
        Err(e) => Err(e.to_string()),
    }
}

/// `bitcode::encode` on a row, the status of the clients as a map: data that is read as the same
/// state.
#[verifier::external_body]
fn encode_row(row: StateRow) -> (r: Vec<u8>)
    requires
        (StatusMap { items: row.2 }).wf(),
    ensures
        r@ == data_of_state(state_of_row(row)),
        state_of_data(r@) == Some(state_of_row(row)),
{
    let written: WrittenRow = (row.0, row.1, row.2.into_iter().collect());
    bitcode::encode(&written)
}

fn log_id_from(row: Option<LogIdRow>) -> (r: Option<LogId>)
    ensures
        r == log_id_of(row),
{
    match row {
        Some(((term, node_id), index)) => Some(
            LogId { leader_id: LeaderId { term, node_id }, index },
        ),
        None => None,
    }
}

fn log_id_row(log_id: Option<LogId>) -> (r: Option<LogIdRow>)
    ensures
        log_id_of(r) == log_id,
{
    match log_id {
        Some(l) => Some(((l.leader_id.term, l.leader_id.node_id), l.index)),
        None => None,
    }
}

impl MemStoreStateMachine {
    /// What the state machine holds, as bytes.
    pub fn encode(&self) -> (r: Vec<u8>)
        requires
            self.wf(),
        ensures
            r@ == data_of_state(self@),
            state_of_data(r@) == Some(self@),
    {
        let copy = self.duplicate();
        let membership = copy.last_membership.membership;
        let row: StateRow = (
            log_id_row(copy.last_applied_log),
            (log_id_row(copy.last_membership.log_id), (membership.configs, membership.nodes)),
            copy.client_status.items,
        );
        assert(state_of_row(row) =~= self@);
        encode_row(row)
    }

    /// The state machine that bytes hold, or an error where they hold none.
    pub fn decode(data: &Vec<u8>) -> (r: Result<MemStoreStateMachine, String>)
        ensures
            match r {
                Ok(sm) => sm.wf() && state_of_data(data@) == Some(sm@),
                Err(_) => state_of_data(data@) is None,
            },
    {
        match decode_row(data) {
            Ok((applied, (log_id, (configs, nodes)), items)) => Ok(
                MemStoreStateMachine {
                    last_applied_log: log_id_from(applied),
                    last_membership: StoredMembership {
                        log_id: log_id_from(log_id),
                        membership: Membership { configs, nodes },
                    },
                    client_status: StatusMap { items },
                },
            ),
            Err(e) => Err(e),
        }
    }
}

/// A snapshot that the state machine keeps.
#[derive(Debug)]
pub struct MemStoreSnapshot {
    pub meta: SnapshotMeta<()>,
    pub data: Vec<u8>,
}

impl MemStoreSnapshot {
    /// The snapshot, to be handed out.
    pub fn to_snapshot(&self) -> (r: Snapshot<(), Vec<u8>>)
        ensures
            r.meta@ == self.meta@,
            r.snapshot@ == self.data@,
    {
        Snapshot { meta: self.meta.duplicate(), snapshot: self.data.clone() }
    }
}

/// The state machine in memory.
pub struct MemStateMachine {
    pub sm: MemStoreStateMachine,
    /// Whether a snapshot may be built when none is asked for by force.
    pub allow_build_snapshot: bool,
    pub current_snapshot: Option<MemStoreSnapshot>,
    pub block: BlockConfig,
    /// How often a snapshot was asked for.
    pub try_create_snapshot_builder_count: u64,
    /// Whether applying an entry panics.
    pub panic_on_apply: bool,
}

impl MemStateMachine {
    /// Whether nothing was applied yet.
    pub open spec fn fresh(self) -> bool {
        &&& self.wf()
        &&& self.sm@ == MemStateView::initial()
        &&& self.allow_build_snapshot
        &&& self.current_snapshot is None
        &&& self.try_create_snapshot_builder_count == 0
        &&& !self.panic_on_apply
    }

    /// No client occurs twice.
    pub open spec fn wf(self) -> bool {
        self.sm.wf()
    }

    /// A state machine to which nothing was applied.
    pub fn new(block: BlockConfig) -> (r: MemStateMachine)
        ensures
            r.fresh(),
            r.block == block,
    {
        MemStateMachine {
            sm: MemStoreStateMachine::default(),
            allow_build_snapshot: true,
            current_snapshot: None,
            block,
            try_create_snapshot_builder_count: 0,
            panic_on_apply: false,
        }
    }

    /// Let snapshots be built when none is asked for by force, or not.
    pub fn allow_build_snapshot(&mut self, allowed: bool)
        ensures
            *final(self) == (MemStateMachine { allow_build_snapshot: allowed, ..*old(self) }),
    {
        self.allow_build_snapshot = allowed;
    }

    /// Let applying an entry panic, or not.
    pub fn panic_on_apply(&mut self, panic: bool)
        ensures
            *final(self) == (MemStateMachine { panic_on_apply: panic, ..*old(self) }),
    {
        self.panic_on_apply = panic;
    }

    /// How often a snapshot was asked for since this was asked last.
    pub fn take_try_create_snapshot_builder_count(&mut self) -> (r: u64)
        ensures
            r == old(self).try_create_snapshot_builder_count,
            *final(self) == (MemStateMachine {
                try_create_snapshot_builder_count: 0,
                ..*old(self)
            }),
    {
        let r = self.try_create_snapshot_builder_count;
        self.try_create_snapshot_builder_count = 0;
        r
    }

    /// Forget the snapshot.
    pub fn drop_snapshot(&mut self)
        ensures
            *final(self) == (MemStateMachine { current_snapshot: None, ..*old(self) }),
    {
        self.current_snapshot = None;
    }

    /// A copy of what the state machine holds.
    pub fn get_state_machine(&self) -> (r: MemStoreStateMachine)
        requires
            self.wf(),
        ensures
            r.wf(),
            r@ == self.sm@,
    {
        self.sm.duplicate()
    }

    /// Forget everything that was applied.
    pub fn clear_state_machine(&mut self)
        ensures
            final(self).wf(),
            final(self).sm@ == MemStateView::initial(),
            *final(self) == (MemStateMachine { sm: final(self).sm, ..*old(self) }),
    {
        self.sm = MemStoreStateMachine::default();
    }

    /// The last entry that was applied and the last membership.
    pub fn applied_state(&self) -> (r: (Option<LogId>, StoredMembership<()>))
        ensures
            r.0 == self.sm.last_applied_log,
            r.1@ == self.sm.last_membership@,
    {
        (self.sm.last_applied_log, self.sm.last_membership.duplicate())
    }

    /// Apply entries one after the other; the responses come in their order.
    pub fn apply(&mut self, entries: &Vec<Entry<MemPayload>>) -> (r: Vec<ClientResponse>)
        requires
            old(self).wf(),
            !old(self).panic_on_apply || entries@.len() == 0,
        ensures
            final(self).wf(),
            *final(self) == (MemStateMachine { sm: final(self).sm, ..*old(self) }),
            final(self).sm@ == old(self).sm@.applied_all(entry_views(entries@)),
            r@.len() == entries@.len(),
            forall|i: int|
                0 <= i < r@.len() ==> (#[trigger] r@[i])@ == old(self).sm@.applied_all(
                    entry_views(entries@).take(i),
                ).response(memstore::entry_view(entries@[i])),
    {
        let ghost before = self.sm@;
        let ghost all = entry_views(entries@);
        let mut r: Vec<ClientResponse> = Vec::new();
        let mut i: usize = 0;
        assert(all.take(0) =~= Seq::empty());
        while i < entries.len()
            invariant
                i <= entries.len(),
                all == entry_views(entries@),
                before == old(self).sm@,
                self.wf(),
                *self == (MemStateMachine { sm: self.sm, ..*old(self) }),
                self.sm@ == before.applied_all(all.take(i as int)),
                r@.len() == i,
                forall|j: int|
                    0 <= j < i ==> (#[trigger] r@[j])@ == before.applied_all(all.take(j)).response(
                        memstore::entry_view(entries@[j]),
                    ),
            decreases entries.len() - i,
        {
            proof {
                assert(all.take(i + 1).drop_last() =~= all.take(i as int));
                assert(all.take(i + 1).last() == memstore::entry_view(entries@[i as int]));
            }
            let resp = self.sm.apply(&entries[i]);
            r.push(resp);
            i = i + 1;
        }
        assert(all.take(i as int) =~= all);
        r
    }

    /// Whether a snapshot may be built.  The question is counted.
    pub fn try_create_snapshot_builder(&mut self, force: bool) -> (r: bool)
        ensures
            r == (force || old(self).allow_build_snapshot),
            *final(self) == (MemStateMachine {
                try_create_snapshot_builder_count: old(
                    self,
                ).try_create_snapshot_builder_count.wrapping_add(1),
                ..*old(self)
            }),
    {
        self.try_create_snapshot_builder_count = self.try_create_snapshot_builder_count.wrapping_add(
            1,
        );
        force || self.allow_build_snapshot
    }

    /// How long building a snapshot is delayed before it starts, if it is.
    pub fn build_delay(&self, delays: &BlockDelays) -> (r: Option<Duration>)
        ensures
            r == delays.delay(BlockOperation::DelayBuildingSnapshot),
    {
        self.block.get_blocking(delays, &BlockOperation::DelayBuildingSnapshot)
    }

    /// How long building a snapshot is delayed while it goes on, if it is.
    pub fn building_delay(&self, delays: &BlockDelays) -> (r: Option<Duration>)
        ensures
            r == delays.delay(BlockOperation::BuildSnapshot),
    {
        self.block.get_blocking(delays, &BlockOperation::BuildSnapshot)
    }

    /// Whether `new` is this state machine with a snapshot of what it holds built, and kept.
    pub open spec fn built(self, snapshot: Snapshot<(), Vec<u8>>, new: MemStateMachine) -> bool {
        &&& snapshot.meta.last_log_id == self.sm.last_applied_log
        &&& snapshot.meta.last_membership@ == self.sm.last_membership@
        &&& snapshot.snapshot@ == data_of_state(self.sm@)
        &&& state_of_data(snapshot.snapshot@) == Some(self.sm@)
        &&& new.keeps(snapshot)
        &&& new == (MemStateMachine { current_snapshot: new.current_snapshot, ..self })
    }

    /// Build a snapshot of what the state machine holds.  The snapshot is kept.
    pub fn build_snapshot(&mut self) -> (r: Snapshot<(), Vec<u8>>)
        requires
            old(self).wf(),
        ensures
            old(self).built(r, *final(self)),
    {
        let data = self.sm.encode();
        let meta = SnapshotMeta {
            last_log_id: self.sm.last_applied_log,
            last_membership: self.sm.last_membership.duplicate(),
        };
        let snapshot = MemStoreSnapshot { meta: meta.duplicate(), data: data.clone() };
        self.current_snapshot = Some(snapshot);
        Snapshot { meta, snapshot: data }
    }

    /// Whether a snapshot is the one that the state machine keeps.
    pub open spec fn keeps(self, s: Snapshot<(), Vec<u8>>) -> bool {
        match self.current_snapshot {
            Some(k) => k.meta@ == s.meta@ && k.data@ == s.snapshot@,
            None => false,
        }
    }

    /// Whether `new` is this state machine with a snapshot installed, whose data is read as `state`.
    pub open spec fn installed(
        self,
        meta: SnapshotMetaView<()>,
        data: Seq<u8>,
        state: MemStateView,
        new: MemStateMachine,
    ) -> bool {
        &&& new.wf()
        &&& new.sm@ == state
        &&& new.current_snapshot matches Some(k) && k.meta@ == meta && k.data@ == data
        &&& new == (MemStateMachine {
            sm: new.sm,
            current_snapshot: new.current_snapshot,
            ..self
        })
    }

    /// Install a snapshot.  What cannot be read is an error of the kind `InvalidData`, and nothing
    /// changes.
    pub fn install_snapshot(&mut self, meta: &SnapshotMeta<()>, data: Vec<u8>) -> (r: Result<
        (),
        std::io::Error,
    >)
        ensures
            match state_of_data(data@) {
                Some(state) => {
                    &&& r is Ok
                    &&& old(self).installed(meta@, data@, state, *final(self))
                },
                None => {
                    &&& r matches Err(e)
                    &&& io_error_kind(e) == Some(IoErrorKind::InvalidData)
                    &&& *final(self) == *old(self)
                },
            },
    {
        let decoded = MemStoreStateMachine::decode(&data);
        self.install_decoded(meta, data, decoded)
    }

    /// Install a snapshot, where `decoded` is what its data was read as.  What cannot be read is an
    /// error of the kind `InvalidData` that tells why, and nothing changes.
    pub fn install_decoded(
        &mut self,
        meta: &SnapshotMeta<()>,
        data: Vec<u8>,
        decoded: Result<MemStoreStateMachine, String>,
    ) -> (r: Result<(), std::io::Error>)
        requires
            decoded matches Ok(sm) ==> sm.wf(),
        ensures
            match decoded {
                Ok(sm) => {
                    &&& r is Ok
                    &&& final(self).sm == sm
                    &&& old(self).installed(meta@, data@, sm@, *final(self))
                },
                Err(why) => {
                    &&& r matches Err(e)
                    &&& io_error_kind(e) == Some(IoErrorKind::InvalidData)
                    &&& io_error_payload(e) == Some(why@)
                    &&& *final(self) == *old(self)
                },
            },
    {
        match decoded {
            Ok(sm) => {
                self.sm = sm;
                self.current_snapshot = Some(MemStoreSnapshot { meta: meta.duplicate(), data });
                Ok(())
            },
            Err(e) => Err(io_error_new(IoErrorKind::InvalidData, e)),
        }
    }

    /// A copy of the snapshot that the state machine keeps.
    pub fn get_current_snapshot(&self) -> (r: Option<Snapshot<(), Vec<u8>>>)
        ensures
            match r {
                Some(s) => self.keeps(s),
                None => self.current_snapshot is None,
            },
    {
        match &self.current_snapshot {
            Some(s) => Some(s.to_snapshot()),
            None => None,
        }
    }
}

/// Entries as mathematics.
pub open spec fn entry_views(entries: Seq<Entry<MemPayload>>) -> Seq<MemEntryView> {
    entries.map_values(|e: Entry<MemPayload>| memstore::entry_view(e))
}

/// A snapshot brings back what the state machine held that built it, into whichever state machine it
/// is installed.
pub proof fn snapshots_bring_back_the_state(
    source: MemStateMachine,
    built: MemStateMachine,
    snapshot: Snapshot<(), Vec<u8>>,
    target: MemStateMachine,
    state: MemStateView,
    installed: MemStateMachine,
)
    requires
        source.built(snapshot, built),
        state_of_data(snapshot.snapshot@) == Some(state),
        target.installed(snapshot.meta@, snapshot.snapshot@, state, installed),
    ensures
        installed.sm@ == source.sm@,
        installed.keeps(snapshot),
{
}

/// A request is answered with the status that the request before it set: the last write of a client
/// is read by the next.
pub proof fn last_write_is_read(
    s: MemStateView,
    first: MemEntryView,
    second: MemEntryView,
)
    requires
        first.payload is Normal,
        second.payload is Normal,
        first.payload->Normal_0.client == second.payload->Normal_0.client,
    ensures
        s.applied(first).response(second) == Some(first.payload->Normal_0.status),
{
}

/// Entries that are applied in two parts are applied as in one.
pub proof fn applying_in_parts(s: MemStateView, a: Seq<MemEntryView>, b: Seq<MemEntryView>)
    ensures
        s.applied_all(a).applied_all(b) == s.applied_all(a + b),
    decreases b.len(),
{
    if b.len() == 0 {
        assert(a + b =~= a);
    } else {
        applying_in_parts(s, a, b.drop_last());
        assert((a + b).drop_last() =~= a + b.drop_last());
    }
}

/// The state machine remembers the last entry that was applied.
pub proof fn last_applied_is_remembered(s: MemStateView, es: Seq<MemEntryView>)
    requires
        es.len() > 0,
    ensures
        s.applied_all(es).last_applied_log == Some(es.last().log_id),
{
}

/// An entry changes what it is about and nothing else: a request the status of its client, a
/// membership the last membership, and every entry the last one that was applied.
pub proof fn entries_change_what_they_are_about(
    s: MemStateView,
    e: MemEntryView,
    client: Seq<char>,
)
    ensures
        s.applied(e).last_applied_log == Some(e.log_id),
        e.payload is Blank ==> s.applied(e).client_status == s.client_status
            && s.applied(e).last_membership == s.last_membership,
        e.payload matches MemPayloadView::Normal(r) ==> {
            &&& s.applied(e).last_membership == s.last_membership
            &&& s.applied(e).client_status.contains_key(r.client)
            &&& s.applied(e).client_status[r.client] == r.status
            &&& client != r.client ==> (s.applied(e).client_status.contains_key(client)
                <==> s.client_status.contains_key(client))
            &&& client != r.client && s.client_status.contains_key(client) ==> s.applied(
                e,
            ).client_status[client] == s.client_status[client]
        },
        e.payload matches MemPayloadView::Membership(m) ==> {
            &&& s.applied(e).client_status == s.client_status
            &&& s.applied(e).last_membership.membership == m
            &&& s.applied(e).last_membership.log_id == Some(e.log_id)
        },
{
}

/// A request is answered with the status that its client had, if it had one; no other entry is
/// answered with a status.
pub proof fn requests_are_answered_with_the_old_status(s: MemStateView, e: MemEntryView)
    ensures
        e.payload is Normal && s.client_status.contains_key(e.payload->Normal_0.client)
            ==> s.response(e) == Some(s.client_status[e.payload->Normal_0.client]),
        e.payload is Normal && !s.client_status.contains_key(e.payload->Normal_0.client)
            ==> s.response(e) is None,
        !(e.payload is Normal) ==> s.response(e) is None,
{
}

/// After many entries a client has the status of its last request, and the last membership is that
/// of the last entry that holds one.
pub proof fn last_entries_win(s: MemStateView, es: Seq<MemEntryView>, k: int)
    requires
        0 <= k < es.len(),
    ensures
        es[k].payload is Normal && (forall|j: int|
            k < j < es.len() ==> !((#[trigger] es[j]).payload is Normal && es[j].payload->Normal_0.client
                == es[k].payload->Normal_0.client)) ==> s.applied_all(es).client_status.contains_key(
            es[k].payload->Normal_0.client,
        ) && s.applied_all(es).client_status[es[k].payload->Normal_0.client]
            == es[k].payload->Normal_0.status,
        es[k].payload is Membership && (forall|j: int|
            k < j < es.len() ==> !((#[trigger] es[j]).payload is Membership)) ==> s.applied_all(
            es,
        ).last_membership.log_id == Some(es[k].log_id) && s.applied_all(
            es,
        ).last_membership.membership == es[k].payload->Membership_0,
    decreases es.len(),
{
    let rest = es.drop_last();
    let n = es.len() - 1;
    assert(es[n] == es.last());
    assert forall|j: int| 0 <= j < rest.len() implies #[trigger] rest[j] == es[j] by {}
    if k < n {
        last_entries_win(s, rest, k);
    }
}

/// Before anything was applied there is no last entry, no membership and no status; applying nothing
/// changes nothing.
pub proof fn nothing_is_held_at_first(client: Seq<char>, s: MemStateView)
    ensures
        MemStateView::initial().last_applied_log is None,
        MemStateView::initial().last_membership.log_id is None,
        MemStateView::initial().last_membership.membership.configs.len() == 0,
        !MemStateView::initial().client_status.contains_key(client),
        s.applied_all(Seq::empty()) == s,
{
}

/// A snapshot covers what was applied and tells of the last membership; building it keeps what the
/// state machine holds.  Installing one replaces what the state machine holds and the snapshot that
/// it keeps, and no setting.
pub proof fn snapshots_touch_no_setting(
    s: MemStateMachine,
    snapshot: Snapshot<(), Vec<u8>>,
    built: MemStateMachine,
    meta: SnapshotMetaView<()>,
    data: Seq<u8>,
    state: MemStateView,
    installed: MemStateMachine,
)
    ensures
        s.built(snapshot, built) ==> {
            &&& snapshot.meta.last_log_id == s.sm.last_applied_log
            &&& snapshot.meta.last_membership@ == s.sm.last_membership@
            &&& state_of_data(snapshot.snapshot@) == Some(s.sm@)
            &&& built.sm == s.sm
            &&& built.current_snapshot matches Some(k) && k.meta@ == snapshot.meta@ && k.data@
                == snapshot.snapshot@
            &&& built.allow_build_snapshot == s.allow_build_snapshot
            &&& built.panic_on_apply == s.panic_on_apply
            &&& built.try_create_snapshot_builder_count == s.try_create_snapshot_builder_count
        },
        s.installed(meta, data, state, installed) ==> {
            &&& installed.sm@ == state
            &&& installed.current_snapshot matches Some(k) && k.meta@ == meta && k.data@ == data
            &&& installed.allow_build_snapshot == s.allow_build_snapshot
            &&& installed.panic_on_apply == s.panic_on_apply
            &&& installed.try_create_snapshot_builder_count == s.try_create_snapshot_builder_count
        },
{
}

/// A row keeps the parts of a log id apart: the term, the node and the index.
pub proof fn rows_keep_log_ids(term: u64, node_id: u64, index: u64)
    ensures
        log_id_of(Some(((term, node_id), index))) matches Some(l) && l.leader_id.term == term
            && l.leader_id.node_id == node_id && l.index == index,
        log_id_of(None) is None,
{
}

/// A client that stands in the list has the status that stands beside it, and no other client has
/// one.
pub proof fn listed_clients_have_a_status(m: StatusMap, i: int, client: Seq<char>)
    requires
        m.wf(),
    ensures
        0 <= i < m.items@.len() ==> m@.contains_key(m.items@[i].0@) && m@[m.items@[i].0@]
            == m.items@[i].1@,
        m@.contains_key(client) <==> exists|j: int|
            0 <= j < m.items@.len() && (#[trigger] m.items@[j]).0@ == client,
{
    if 0 <= i < m.items@.len() {
        m.lemma_at(i);
    }
    if exists|j: int| 0 <= j < m.items@.len() && (#[trigger] m.items@[j]).0@ == client {
        let j = choose|j: int| 0 <= j < m.items@.len() && (#[trigger] m.items@[j]).0@ == client;
        assert(m.at(j, client));
    }
    if m@.contains_key(client) {
        let j = choose|j: int| m.at(j, client);
        assert(m.items@[j].0@ == client);
    }
}

/// Entries are seen one by one, in their order.
pub proof fn entries_are_seen_in_order(entries: Seq<Entry<MemPayload>>, i: int)
    ensures
        entry_views(entries).len() == entries.len(),
        0 <= i < entries.len() ==> entry_views(entries)[i].log_id == entries[i].log_id
            && entry_views(entries)[i] == memstore::entry_view(entries[i]),
{
}

/// Entries are applied one after the other, and each is answered by the state before it.
pub proof fn apply_calls(
    m: &mut MemStateMachine,
    entries: Vec<Entry<MemPayload>>,
    r: Vec<ClientResponse>,
    i: int,
)
    requires
        call_ensures(MemStateMachine::apply, (m, &entries), r),
    ensures
        final(m).sm@ == old(m).sm@.applied_all(entry_views(entries@)),
        r@.len() == entries@.len(),
        0 <= i < r@.len() ==> r@[i]@ == old(m).sm@.applied_all(
            entry_views(entries@.take(i)),
        ).response(memstore::entry_view(entries@[i])),
        final(m).current_snapshot == old(m).current_snapshot,
        final(m).allow_build_snapshot == old(m).allow_build_snapshot,
        final(m).try_create_snapshot_builder_count == old(m).try_create_snapshot_builder_count,
{
    if 0 <= i < r@.len() {
        assert(entry_views(entries@.take(i)) =~= entry_views(entries@).take(i));
    }
}

/// A snapshot may be built where that is allowed or forced, and each question is counted until the
/// count is taken.
pub proof fn builder_calls(m: &mut MemStateMachine, force: bool, r: bool, count: u64)
    ensures
        call_ensures(MemStateMachine::try_create_snapshot_builder, (m, force), r) ==> {
            &&& r <==> force || old(m).allow_build_snapshot
            &&& old(m).try_create_snapshot_builder_count < u64::MAX ==> final(m).try_create_snapshot_builder_count == old(m).try_create_snapshot_builder_count + 1
            &&& final(m).sm == old(m).sm && final(m).allow_build_snapshot
                == old(m).allow_build_snapshot
        },
        call_ensures(MemStateMachine::take_try_create_snapshot_builder_count, (m,), count) ==> count
            == old(m).try_create_snapshot_builder_count && final(m).try_create_snapshot_builder_count == 0 && final(m).sm == old(m).sm,
{
}

/// A snapshot that is built or installed is kept until it is dropped; data that cannot be read is
/// refused and changes nothing.  Forgetting what was applied keeps the snapshot.
pub proof fn snapshot_calls(
    m: &mut MemStateMachine,
    meta: SnapshotMeta<()>,
    data: Vec<u8>,
    built: Snapshot<(), Vec<u8>>,
    installed: Result<(), std::io::Error>,
    seen: Option<Snapshot<(), Vec<u8>>>,
    done: (),
)
    ensures
        call_ensures(MemStateMachine::build_snapshot, (m,), built) ==> old(m).built(
            built,
            *final(m),
        ),
        call_ensures(MemStateMachine::install_snapshot, (m, &meta, data), installed) ==> {
            &&& installed is Ok <==> state_of_data(data@) is Some
            &&& installed is Ok ==> old(m).installed(
                meta@,
                data@,
                state_of_data(data@)->0,
                *final(m),
            )
            &&& installed is Err ==> *final(m) == *old(m) && io_error_kind(installed->Err_0)
                == Some(IoErrorKind::InvalidData)
        },
        call_ensures(MemStateMachine::get_current_snapshot, (old(m),), seen) ==> {
            &&& seen is Some <==> old(m).current_snapshot is Some
            &&& seen is Some ==> seen->0.meta@ == old(m).current_snapshot->0.meta@
                && seen->0.snapshot@ == old(m).current_snapshot->0.data@
        },
        call_ensures(MemStateMachine::drop_snapshot, (m,), done) ==> final(m).current_snapshot is None && final(m).sm == old(m).sm,
        call_ensures(MemStateMachine::clear_state_machine, (m,), done) ==> final(m).sm@
            == MemStateView::initial() && final(m).current_snapshot == old(m).current_snapshot,
{
}

/// A new state machine holds nothing, keeps no snapshot and may build one; what was applied last is told
/// as it is held.
pub proof fn machine_calls(
    block: BlockConfig,
    new: MemStateMachine,
    m: &mut MemStateMachine,
    value: bool,
    done: (),
    state: (Option<LogId>, StoredMembership<()>),
)
    ensures
        call_ensures(MemStateMachine::new, (block,), new) ==> new.sm@ == MemStateView::initial()
            && new.allow_build_snapshot && new.current_snapshot is None
            && new.try_create_snapshot_builder_count == 0 && !new.panic_on_apply,
        call_ensures(MemStateMachine::allow_build_snapshot, (m, value), done) ==> final(m).allow_build_snapshot == value && final(m).sm == old(m).sm && final(m).panic_on_apply
            == old(m).panic_on_apply && final(m).current_snapshot == old(m).current_snapshot,
        call_ensures(MemStateMachine::panic_on_apply, (m, value), done) ==> final(m).panic_on_apply
            == value && final(m).sm == old(m).sm && final(m).allow_build_snapshot
            == old(m).allow_build_snapshot && final(m).current_snapshot == old(m).current_snapshot,
        call_ensures(MemStateMachine::applied_state, (old(m),), state) ==> state.0
            == old(m).sm.last_applied_log && state.1@ == old(m).sm.last_membership@,
{
}

} // verus!
