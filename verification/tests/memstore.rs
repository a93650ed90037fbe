use std::io::ErrorKind;

use zenoh_raft::entry::{Entry, EntryPayload};
use zenoh_raft::membership::Membership;
use zenoh_raft::storage::SnapshotMeta;
use zenoh_raft::testing::mem_log_store::{IndexBound, IndexRange, MemLogStore};
use zenoh_raft::testing::mem_state_machine::{
    MemStateMachine, MemStoreStateMachine, StatusMap,
};
use zenoh_raft::testing::memstore::{
    new_mem_store, BlockConfig, BlockDelays, BlockOperation, ClientRequest, IntoMemClientRequest,
    MemPayload,
};
use zenoh_raft::time::Duration;
use zenoh_raft::type_config::log_id;
use zenoh_raft::vote::Vote;

fn blank(index: u64) -> Entry<MemPayload> {
    Entry { log_id: log_id(1, 1, index), payload: EntryPayload::Blank }
}

fn write(index: u64, client: &str, status: &str) -> Entry<MemPayload> {
    let request =
        ClientRequest { client: client.to_string(), serial: index, status: status.to_string() };
    Entry { log_id: log_id(1, 1, index), payload: EntryPayload::Normal(request) }
}

fn indexes(entries: &[Entry<MemPayload>]) -> Vec<u64> {
    entries.iter().map(|e| e.log_id.index).collect()
}

fn store(upto: u64) -> MemLogStore {
    let mut s = MemLogStore::new(BlockConfig);
    s.append((0..upto).map(blank).collect());
    s
}

#[test]
fn requests_are_made_of_a_client_and_a_number() {
    let r = ClientRequest::make_request("foo", 4);
    assert_eq!((r.client.as_str(), r.serial, r.status.as_str()), ("foo", 4, "request-4"));
    assert_eq!(r.to_string(), "ClientRequest{client:foo, serial:4, status:request-4}");
    assert_eq!(r.duplicate(), r);
}

#[test]
fn appended_entries_are_read() {
    let s = store(5);
    let range = |from, to| IndexRange { from, to };
    let read = |from, to| indexes(&s.try_get_log_entries(range(from, to)));
    assert_eq!(read(IndexBound::Unbounded, IndexBound::Unbounded), vec![0, 1, 2, 3, 4]);
    assert_eq!(read(IndexBound::Included(1), IndexBound::Excluded(3)), vec![1, 2]);
    assert_eq!(read(IndexBound::Excluded(1), IndexBound::Included(3)), vec![2, 3]);
    assert_eq!(read(IndexBound::Included(2), IndexBound::Excluded(2)), Vec::<u64>::new());
    assert_eq!(read(IndexBound::Included(4), IndexBound::Unbounded), vec![4]);
}

#[test]
fn a_later_entry_takes_the_place_of_an_earlier_one() {
    let mut s = store(3);
    let mut e = blank(1);
    e.log_id = log_id(7, 7, 1);
    s.append(vec![e]);
    let all = IndexRange { from: IndexBound::Unbounded, to: IndexBound::Unbounded };
    let got = s.try_get_log_entries(all);
    assert_eq!(got.len(), 3);
    assert_eq!(got[1].log_id, log_id(7, 7, 1));
}

#[test]
fn limited_reads_can_fail_or_be_empty() {
    let mut s = store(5);
    assert_eq!(indexes(&s.limited_get_log_entries(1, 3).unwrap()), vec![1, 2]);
    s.set_fail_next_limited_get(true);
    let e = s.limited_get_log_entries(1, 3).err().unwrap();
    assert_eq!(e.kind(), ErrorKind::Other);
    assert_eq!(e.to_string(), "injected limited_get_log_entries error");
    s.set_fail_next_limited_get(true);
    assert!(s.limited_get_log_entries(3, 1).is_err());
    s.set_return_empty_limited_get(true);
    assert!(s.limited_get_log_entries(1, 3).unwrap().is_empty());
    assert!(s.limited_get_log_entries(3, 1).unwrap().is_empty());
    s.set_return_empty_limited_get(false);
    assert_eq!(s.limited_get_log_entries(1, 3).unwrap().len(), 2);
}

#[test]
fn what_is_saved_is_read() {
    let mut s = MemLogStore::new(BlockConfig);
    assert_eq!((s.read_vote(), s.read_committed()), (None, None));
    s.save_vote(&Vote::new(1, 2));
    s.save_committed(Some(log_id(1, 1, 3)));
    assert_eq!(s.read_vote(), Some(Vote::new(1, 2)));
    assert_eq!(s.read_committed(), Some(log_id(1, 1, 3)));
    s.enable_saving_committed = false;
    s.save_committed(None);
    assert_eq!(s.read_committed(), None);
    assert_eq!(s.committed, Some(log_id(1, 1, 3)));
}

#[test]
fn the_log_is_truncated_and_purged() {
    let mut s = store(6);
    let state = s.get_log_state();
    assert_eq!((state.last_purged_log_id, state.last_log_id), (None, Some(log_id(1, 1, 5))));
    s.truncate_after(Some(log_id(1, 1, 3)));
    assert_eq!(s.get_log_state().last_log_id, Some(log_id(1, 1, 3)));
    s.purge(log_id(1, 1, 1));
    let state = s.get_log_state();
    assert_eq!(state.last_purged_log_id, Some(log_id(1, 1, 1)));
    assert_eq!(s.log.len(), 2);
    s.truncate_after(None);
    assert!(s.log.is_empty());
    let state = s.get_log_state();
    assert_eq!(state.last_log_id, Some(log_id(1, 1, 1)));
    assert_eq!(store(0).get_log_state().last_log_id, None);
}

#[test]
fn operations_are_delayed() {
    let (log, sm, mut delays) = new_mem_store();
    assert_eq!(delays, BlockDelays::default());
    assert_eq!((log.purge_delay(&delays), sm.build_delay(&delays)), (None, None));
    let b = sm.block;
    b.set_blocking(&mut delays, BlockOperation::PurgeLog, Duration::from_secs(1));
    b.set_blocking(&mut delays, BlockOperation::BuildSnapshot, Duration::from_secs(2));
    assert_eq!(log.purge_delay(&delays), Some(Duration::from_secs(1)));
    assert_eq!(sm.building_delay(&delays), Some(Duration::from_secs(2)));
    assert_eq!(sm.build_delay(&delays), None);
    b.clear_blocking(&mut delays, BlockOperation::PurgeLog);
    assert_eq!(b.get_blocking(&delays, &BlockOperation::PurgeLog), None);
    b.set_blocking(&mut delays, BlockOperation::DelayBuildingSnapshot, Duration::from_secs(3));
    assert_eq!(sm.build_delay(&delays), Some(Duration::from_secs(3)));
}

#[test]
fn delays_are_shared() {
    let (mut delays, a) = BlockConfig::new();
    let b = a.clone();
    let purge = BlockOperation::PurgeLog;
    a.set_blocking(&mut delays, purge, Duration::from_secs(1));
    a.set_blocking(&mut delays, purge, Duration::from_secs(2));
    assert_eq!(b.get_blocking(&delays, &purge), Some(Duration::from_secs(2)));
    assert_eq!(b.get_blocking(&delays, &BlockOperation::BuildSnapshot), None);
    b.clear_blocking(&mut delays, purge);
    assert_eq!(a.get_blocking(&delays, &purge), None);
}

#[test]
fn the_last_write_of_a_client_is_read_by_the_next() {
    let mut sm = MemStateMachine::new(BlockConfig);
    let m = Membership::new_with_defaults(vec![[1].into_iter().collect()], vec![]);
    let r = sm.apply(&vec![
        write(0, "a", "x"),
        write(1, "b", "y"),
        write(2, "a", "z"),
        blank(3),
        Entry { log_id: log_id(1, 1, 4), payload: EntryPayload::Membership(m.duplicate()) },
    ]);
    let got: Vec<Option<&str>> = r.iter().map(|r| r.0.as_deref()).collect();
    assert_eq!(got, vec![None, None, Some("x"), None, None]);
    let (last, membership) = sm.applied_state();
    assert_eq!(last, Some(log_id(1, 1, 4)));
    assert_eq!(membership.log_id, Some(log_id(1, 1, 4)));
    assert!(membership.membership.same(&m));
    let copy = sm.get_state_machine();
    assert_eq!(copy.client_status, sm.sm.client_status);

    let mut parts = MemStateMachine::new(BlockConfig);
    parts.apply(&vec![write(0, "a", "x")]);
    let r = parts.apply(&vec![write(2, "a", "z")]);
    assert_eq!(r[0].0.as_deref(), Some("x"));

    sm.clear_state_machine();
    assert_eq!(sm.applied_state().0, None);
    assert_eq!(sm.sm.client_status, StatusMap::new());
}

#[test]
fn snapshots_are_built_kept_and_installed() {
    let mut sm = MemStateMachine::new(BlockConfig);
    assert!(sm.get_current_snapshot().is_none());
    sm.apply(&vec![write(0, "a", "x")]);
    assert!(sm.try_create_snapshot_builder(false));
    sm.allow_build_snapshot(false);
    assert!(!sm.try_create_snapshot_builder(false));
    assert!(sm.try_create_snapshot_builder(true));
    assert_eq!(sm.take_try_create_snapshot_builder_count(), 3);
    assert_eq!(sm.take_try_create_snapshot_builder_count(), 0);

    let s = sm.build_snapshot();
    assert_eq!(s.meta.last_log_id, Some(log_id(1, 1, 0)));
    let kept = sm.get_current_snapshot().unwrap();
    assert_eq!((kept.meta.last_log_id, &kept.snapshot), (Some(log_id(1, 1, 0)), &s.snapshot));
    sm.drop_snapshot();
    assert!(sm.get_current_snapshot().is_none());

    let mut other = MemStateMachine::new(BlockConfig);
    let e = other.install_snapshot(&s.meta, vec![0xff; 3]).err().unwrap();
    assert_eq!(e.kind(), ErrorKind::InvalidData);
    assert!(other.get_current_snapshot().is_none());
    assert_eq!(other.applied_state().0, None);
    assert!(other.install_snapshot(&s.meta, s.snapshot.clone()).is_ok());
    assert_eq!(other.applied_state().0, Some(log_id(1, 1, 0)));
    assert_eq!(other.get_current_snapshot().unwrap().snapshot, s.snapshot);
}

#[test]
fn snapshots_bring_back_the_state() {
    let mut sm = MemStateMachine::new(BlockConfig);
    let m = Membership::new_with_defaults(vec![[1, 2].into_iter().collect()], vec![3]);
    sm.apply(&vec![
        write(0, "b", "x"),
        write(1, "a", "y"),
        Entry { log_id: log_id(5, 6, 7), payload: EntryPayload::Membership(m.duplicate()) },
        write(8, "b", "z"),
    ]);
    let s = sm.build_snapshot();
    let mut other = MemStateMachine::new(BlockConfig);
    other.apply(&vec![write(0, "c", "gone")]);
    other.install_snapshot(&s.meta, s.snapshot).unwrap();
    let (last, membership) = other.applied_state();
    assert_eq!(last, Some(log_id(1, 1, 8)));
    assert_eq!(membership.log_id, Some(log_id(5, 6, 7)));
    assert!(membership.membership.same(&m));
    let mut items = other.get_state_machine().client_status.items;
    items.sort();
    let pair = |c: &str, s: &str| (c.to_string(), s.to_string());
    assert_eq!(items, vec![pair("a", "y"), pair("b", "z")]);
}

#[test]
fn what_cannot_be_read_is_not_installed() {
    let mut sm = MemStateMachine::new(BlockConfig);
    let e = sm.install_decoded(&SnapshotMeta::default(), vec![9], Err("bad".to_string()));
    let e = e.err().unwrap();
    assert_eq!((e.kind(), e.to_string().as_str()), (ErrorKind::InvalidData, "bad"));
    assert!(sm.get_current_snapshot().is_none());
    let state = MemStoreStateMachine::default();
    let data = state.encode();
    let back = MemStoreStateMachine::decode(&data).unwrap();
    assert_eq!(back.last_applied_log, None);
    assert!(sm.install_decoded(&SnapshotMeta::default(), vec![9], Ok(back)).is_ok());
    assert_eq!(sm.get_current_snapshot().unwrap().snapshot, vec![9]);
    assert!(MemStoreStateMachine::decode(&vec![]).is_err());
}
