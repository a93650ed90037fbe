use std::collections::BTreeMap;
use std::sync::Arc;

use zenoh_raft::async_runtime::watch::channel;
use zenoh_raft::entry::EntryPayload;
use zenoh_raft::errors::Fatal;
use zenoh_raft::log_id::LogId;
use zenoh_raft::membership::Membership;
use zenoh_raft::message::{AppendEntriesResponse, StreamAppendError};
use zenoh_raft::metrics::raft_metrics::MetricsTexts;
use zenoh_raft::metrics::report::Publish;
use zenoh_raft::metrics::wait::{Metric, Wait, WaitError, WaitEvent, WaitFor, WaitStep};
use zenoh_raft::metrics::{RaftDataMetrics, RaftMetrics, RaftServerMetrics, SerdeInstant};
use zenoh_raft::raft_core::establish::EstablishHandler;
use zenoh_raft::raft_core::handlers::{
    CoreConfig, EngineState, RaftCore, RuntimeConfig, TimerConfig,
};
use zenoh_raft::raft_core::heartbeat::{
    HeartbeatEvent, HeartbeatReply, HeartbeatWorker, HeartbeatWorkersHandle, TargetProgress,
    WorkerEvent, WorkerStep,
};
use zenoh_raft::raft_core::notification::{Notification, ReplicationResult};
use zenoh_raft::raft_core::pending_reads::PendingReadQueue;
use zenoh_raft::raft_core::replication::{IOBroadcast, SnapshotRead, SnapshotReader};
use zenoh_raft::raft_core::responders::ClientResponderQueue;
use zenoh_raft::raft_core::state::{
    Candidate, Leader, Leased, LogProgress, MembershipState, RaftState, ServerState, TargetState,
};
use zenoh_raft::storage::StoredMembership;
use zenoh_raft::time::{Duration, Instant};
use zenoh_raft::type_config::{log_id, UTConfig};
use zenoh_raft::vote::{IOId, Vote};

type Cfg = UTConfig;

fn at(nanos: u128) -> Instant {
    Instant { nanos }
}

fn metrics() -> RaftMetrics<Cfg> {
    let mut m = RaftMetrics::new_initial(3);
    m.current_term = 4;
    m.vote = Vote::new(4, 3);
    m.last_log_index = Some(7);
    m.last_applied = Some(log_id(4, 3, 6));
    m.local_committed = Some(log_id(4, 3, 7));
    m.snapshot = Some(log_id(4, 3, 5));
    m.purged = Some(log_id(4, 3, 2));
    m
}

const TEXTS: MetricsTexts<'static> = MetricsTexts {
    quorum_acked_time: "T",
    quorum_acked_ago: "1s",
    membership: "M",
    committed_membership: "CM",
    replication: "R",
    heartbeat: "H",
};

#[test]
fn a_new_node_has_initial_metrics() {
    let m = RaftMetrics::<Cfg>::new_initial(3);
    assert!(m.running_state.is_ok());
    assert_eq!((m.id, m.current_term, m.vote), (3, 0, Vote::new(0, 3)));
    assert_eq!(m.state, ServerState::Follower);
    assert_eq!((m.last_log_index, m.last_applied, m.current_leader), (None, None, None));
    let m = m.into_shutdown(Fatal::Stopped);
    assert_eq!(m.state, ServerState::Shutdown);
    assert!(matches!(m.running_state, Err(Fatal::Stopped)));
    let s = RaftServerMetrics::<Cfg>::new_initial(3);
    assert_eq!((s.id, s.vote, s.state), (3, Vote::new(0, 3), ServerState::Follower));
    assert!(s.same(&RaftServerMetrics::new_initial(3)));
    assert!(!s.same(&RaftServerMetrics::new_initial(4)));
    assert!(RaftDataMetrics::default().same(&RaftDataMetrics::default()));
}

#[test]
fn metrics_have_a_text() {
    let mut m = metrics();
    assert_eq!(
        m.to_string_with(&TEXTS),
        "Metrics{id:3, Follower, term:4, vote:<T4-N3:->, last_log:7, local_committed:T4-N3.7, \
         cluster_committed:None, last_applied:T4-N3.6, leader:None(quorum_acked_time:None), \
         membership:M, committed_membership:CM, snapshot:T4-N3.5, purged:T4-N3.2, \
         replication:{None}, heartbeat:{None}}"
    );
    m.last_quorum_acked = Some(SerdeInstant::new(at(1)));
    m.current_leader = Some(9);
    m.replication = Some(BTreeMap::new());
    let text = m.to_string_with(&TEXTS);
    assert!(text.contains("leader:9(quorum_acked_time:T, 1s ago)"), "{}", text);
    assert!(text.contains("replication:{R}"), "{}", text);
    assert_eq!(
        RaftDataMetrics::default().to_string_with(&TEXTS),
        "DataMetrics{last_log:None, local_committed:None, cluster_committed:None, \
         last_applied:None, snapshot:None, purged:None, quorum_acked_time:None, \
         replication:{None}, heartbeat:{None}}"
    );
    assert_eq!(
        RaftServerMetrics::<Cfg>::new_initial(3).to_string_with(&TEXTS),
        "ServerMetrics{id:3, Follower, vote:<T0-N3:->, leader:None, membership:M, \
         committed_membership:CM}"
    );
    let s = SerdeInstant::from(at(4));
    assert_eq!((*s.as_inner(), s.into_inner()), (at(4), at(4)));
}

#[test]
fn wait_errors_have_a_text() {
    let e = WaitError::Timeout(Duration::from_millis(500), "waiting for leader".to_string());
    assert_eq!(e.to_string(), "timeout after 500ms when waiting for leader");
    assert_eq!(WaitError::ShuttingDown.to_string(), "raft is shutting down");
    for nanos in [0u128, 1, 1_500, 2_000_000, 3_000_000_001, 90_000_000_000] {
        let std = std::time::Duration::from_nanos(nanos as u64);
        assert_eq!(Duration { nanos }.to_string(), format!("{:?}", std));
    }
}

#[test]
fn waits_go_on_until_the_condition_or_the_time() {
    let w = Wait { timeout: Duration { nanos: 100 } };
    let end = w.timeout_at(at(50));
    assert_eq!(end, at(150));
    let m = metrics();
    let met = w.log_index(Some(7));
    let unmet = w.log_index(Some(8));
    assert_eq!(w.metrics(&met, &m, at(500), end), WaitStep::Done);
    assert_eq!(w.metrics(&unmet, &m, at(150), end), WaitStep::TimedOut);
    assert_eq!(
        w.metrics(&unmet, &m, at(60), end),
        WaitStep::Sleep(Duration { nanos: 90 })
    );
    assert_eq!(w.on_event(WaitEvent::Changed, "m", "L"), Ok(()));
    assert_eq!(w.on_event(WaitEvent::Closed, "m", "L"), Err(WaitError::ShuttingDown));
    let timed_out =
        || WaitError::Timeout(Duration { nanos: 100 }, "m latest: L".to_string());
    assert_eq!(w.on_event(WaitEvent::Elapsed, "m", "L"), Err(timed_out()));
    assert_eq!(w.timed_out("m", "L"), timed_out());
}

#[test]
fn conditions_are_met() {
    let w = Wait { timeout: Duration { nanos: 0 } };
    let mut m = metrics();
    let met = |c: &WaitFor, m: &RaftMetrics<Cfg>| c.is_met(m);
    assert!(met(&w.vote(Vote::new(4, 3)), &m) && !met(&w.vote(Vote::new(4, 2)), &m));
    assert!(met(&w.log_index_at_least(Some(7)), &m) && !met(&w.log_index_at_least(Some(8)), &m));
    assert!(met(&w.log_index_at_least(None), &m) && !met(&w.log_index(None), &m));
    assert!(met(&w.applied_index(Some(6)), &m) && !met(&w.applied_index(Some(5)), &m));
    assert!(met(&w.applied_index_at_least(Some(5)), &m));
    assert!(!met(&w.applied_index_at_least(Some(7)), &m));
    assert!(met(&w.snapshot(log_id(4, 3, 5)), &m) && !met(&w.snapshot(log_id(4, 3, 4)), &m));
    assert!(met(&w.purged(Some(log_id(4, 3, 2))), &m) && !met(&w.purged(None), &m));
    assert!(met(&w.ge(Metric::Term(3)), &m) && met(&w.eq(Metric::Term(4)), &m));
    assert!(!met(&w.ge(Metric::Term(5)), &m));
    assert!(met(&w.ge(Metric::Vote(Vote::new(3, 9))), &m));
    assert!(!met(&w.ge(Metric::Vote(Vote::new_committed(4, 3))), &m));
    assert!(met(&w.ge(Metric::Snapshot(None)), &m));
    assert!(!met(&w.ge(Metric::Purged(Some(log_id(4, 3, 3)))), &m));
    let (c, msg) = w.current_leader(9, "m");
    assert_eq!(msg, "m .current_leader == 9");
    assert!(!met(&c, &m));
    m.current_leader = Some(9);
    assert!(met(&c, &m));
    let (c, msg) = w.state(ServerState::Leader, "m");
    assert_eq!(msg, "m .state == Leader");
    assert!(!met(&c, &m));
    m.state = ServerState::Leader;
    assert!(met(&c, &m));
    assert!(!met(&w.leader_with_quorum_acked(None, "m", "").0, &m));
    m.last_quorum_acked = Some(SerdeInstant::new(at(10)));
    assert!(met(&w.leader_with_quorum_acked(None, "m", "").0, &m));
    assert!(met(&w.leader_with_quorum_acked(Some(at(10)), "m", "t").0, &m));
    assert!(!met(&w.leader_with_quorum_acked(Some(at(11)), "m", "t").0, &m));
    let (c, msg) = w.committed_index(Some(7), "m");
    assert_eq!(msg, "m .committed_index == Some(7)");
    assert!(met(&c, &m));
    let (c, msg) = w.committed_index_at_least(None, "m");
    assert_eq!(msg, "m .committed_index >= None");
    assert!(met(&c, &m));
    assert!(!met(&w.committed_index_at_least(Some(8), "m").0, &m));
    assert_eq!(
        w.leader_with_quorum_acked(Some(at(10)), "m", "t").1,
        "m .leader_with_quorum_acked(Some(t))"
    );
    assert_eq!(
        w.leader_with_quorum_acked(None, "m", "t").1,
        "m .leader_with_quorum_acked(None)"
    );
    assert_eq!(w.voter_ids(&vec![2, 1, 2], "m").1, "m .members == {1, 2}");
    assert_eq!(w.voter_ids(&vec![], "m").1, "m .members == {}");
    assert!(met(&w.voter_ids(&vec![], "m").0, &m));
    let voters = Membership::new_with_defaults(vec![[1, 2].into_iter().collect()], vec![3]);
    m.membership_config = Arc::new(StoredMembership::new(None, voters));
    assert!(met(&w.voter_ids(&vec![2, 1, 2], "m").0, &m)
        && !met(&w.voter_ids(&vec![1, 2, 3], "m").0, &m));
}

fn leading() -> RaftCore<Cfg> {
    let vote = Vote::new_committed(4, 1);
    let stored = || {
        let m = Membership::new_with_defaults(vec![[1, 2].into_iter().collect()], vec![]);
        Arc::new(StoredMembership::new(Some(log_id(1, 1, 1)), m))
    };
    let target = |id: u64, matching: Option<LogId>, acked_at: Option<Instant>| TargetState {
        id,
        matching,
        acked_at,
        heartbeat_due: true,
    };
    RaftCore {
        id: 1,
        config: CoreConfig { heartbeat_interval: 50, election_timeout_min: 150 },
        runtime_config: RuntimeConfig {
            enable_heartbeat: true,
            enable_elect: true,
            enable_pre_vote: true,
        },
        timer_config: TimerConfig {
            leader_lease: Duration::from_secs(1),
            election_timeout: Duration::from_secs(2),
            smaller_log_timeout: Duration::from_secs(4),
        },
        engine: EngineState {
            state: RaftState {
                vote: Leased::new(at(100), Duration::from_secs(1), vote),
                membership_state: MembershipState::new(stored(), stored()),
                server_state: ServerState::Leader,
                last_log_id: Some(log_id(4, 1, 9)),
                local_committed: Some(log_id(4, 1, 8)),
                cluster_committed: Some(log_id(4, 1, 7)),
                io_applied: Some(log_id(4, 1, 6)),
                io_snapshot: Some(log_id(4, 1, 5)),
                io_purged: Some(log_id(4, 1, 4)),
                log_progress: LogProgress {
                    accepted: None,
                    submitted: None,
                    flushed: Some(IOId::new(&vote)),
                },
            },
            leader: Some(Leader {
                committed_vote: vote,
                noop_log_id: log_id(4, 1, 3),
                transfer_to: None,
                last_quorum_acked: Some(at(77)),
                self_quorum: false,
                lease_valid: true,
                next_heartbeat: at(100),
                progress: vec![
                    target(1, Some(log_id(4, 1, 9)), None),
                    target(2, None, Some(at(66))),
                ],
            }),
            candidate: None,
            pre_candidate: None,
            greater_log: false,
        },
        client_responders: ClientResponderQueue::new(),
        pending_reads: PendingReadQueue::new(),
        replications: BTreeMap::new(),
        snapshot_tried_at: None,
        metrics_recorder: Some(5),
    }
}

#[test]
fn metrics_show_the_state_of_the_node() {
    let c = leading();
    let f = c.flush_metrics();
    assert_eq!(f.log_progress, Some(IOId::new(&Vote::new_committed(4, 1))));
    assert_eq!(f.commit_progress, Some(log_id(4, 1, 8)));
    assert_eq!(f.apply_progress, Some(log_id(4, 1, 6)));
    assert_eq!(f.snapshot_progress, Some(log_id(4, 1, 5)));
    let all = &f.report.all;
    assert_eq!((all.id, all.current_term, all.last_log_index), (1, 4, Some(9)));
    assert_eq!(all.vote, Vote::new_committed(4, 1));
    assert_eq!(all.current_leader, Some(1));
    assert_eq!(all.last_quorum_acked.map(|t| t.inner), Some(at(77)));
    let replication = all.replication.as_ref().unwrap();
    assert_eq!(replication[&1], Some(log_id(4, 1, 9)));
    assert_eq!(replication[&2], None);
    let heartbeat = all.heartbeat.as_ref().unwrap();
    assert_eq!(heartbeat[&2].map(|t| t.inner), Some(at(66)));
    assert_eq!(f.report.recorder, Some(5));

    let plan = f.report.publish_plan(&RaftDataMetrics::default(), &f.report.server);
    assert_eq!(plan, vec![Publish::Data, Publish::All]);
    let again = c.flush_metrics();
    let plan = again.report.publish_plan(&f.report.data, &RaftServerMetrics::new_initial(1));
    assert_eq!(plan, vec![Publish::Server, Publish::All]);
    let plan = f.report.publish_plan(&RaftDataMetrics::default(), &RaftServerMetrics::new_initial(1));
    assert_eq!(plan, vec![Publish::Data, Publish::Server, Publish::All]);
    let plan = again.report.publish_plan(&f.report.data, &f.report.server);
    assert_eq!(plan, vec![Publish::All]);

    let mut c = leading();
    c.engine.leader = None;
    c.engine.state.log_progress.flushed = None;
    let f = c.flush_metrics();
    assert_eq!(f.report.all.vote, Vote::new(0, 1));
    assert!(f.report.all.replication.is_none() && f.report.all.last_quorum_acked.is_none());
}

fn worker() -> HeartbeatWorker {
    HeartbeatWorker {
        id: 1,
        leader_vote: Vote::new_committed(4, 1),
        stream_id: 8,
        target: 2,
        heartbeat_interval: 50,
    }
}

fn event(matching: Option<LogId>) -> HeartbeatEvent {
    HeartbeatEvent { time: at(9), matching, cluster_committed: Some(log_id(4, 1, 3)) }
}

#[test]
fn a_heartbeat_is_an_append_without_entries() {
    let w = worker();
    assert_eq!(w.to_string(), "HeartbeatWorker(id=1, target=2)");
    let step = |e| w.do_run::<EntryPayload<u64, ()>>(e);
    assert!(matches!(step(WorkerEvent::Shutdown), WorkerStep::Stop));
    assert!(matches!(step(WorkerEvent::Changed(None)), WorkerStep::Wait));
    match step(WorkerEvent::Changed(Some(event(Some(log_id(4, 1, 2)))))) {
        WorkerStep::Send { heartbeat, request, timeout } => {
            assert_eq!(heartbeat, event(Some(log_id(4, 1, 2))));
            assert_eq!(request.vote, Vote::new_committed(4, 1));
            assert_eq!(request.prev_log_id, Some(log_id(4, 1, 2)));
            assert_eq!(request.leader_commit, Some(log_id(4, 1, 3)));
            assert!(request.entries.is_empty());
            assert_eq!(timeout, Duration::from_millis(50));
        },
        _ => panic!("no heartbeat"),
    }
}

#[test]
fn answers_to_heartbeats_are_reported() {
    let w = worker();
    let e = event(Some(log_id(4, 1, 2)));
    let n = w.handle_reply::<Cfg>(HeartbeatReply::Answer(Ok(None)), &e);
    assert!(n.len() == 1
        && matches!(n[0], Notification::HeartbeatProgress { stream_id: 8, target: 2, sending_time }
            if sending_time == at(9)));
    let higher = StreamAppendError::HigherVote(Vote::new(9, 2));
    let n = w.handle_reply::<Cfg>(HeartbeatReply::Answer(Err(higher)), &e);
    assert!(n.len() == 1 && matches!(n[0], Notification::HigherVote { target: 2, .. }));
    let conflict = StreamAppendError::Conflict(log_id(9, 9, 9));
    let n = w.handle_reply::<Cfg>(HeartbeatReply::Answer(Err(conflict)), &e);
    assert_eq!(n.len(), 2);
    assert!(matches!(n[0], Notification::ReplicationProgress {
        stream_id: 8,
        target: 2,
        result: ReplicationResult::Conflict(l),
        inflight_id: None,
    } if l == log_id(4, 1, 2)));
    assert!(matches!(n[1], Notification::HeartbeatProgress { .. }));
    assert!(w.handle_reply::<Cfg>(HeartbeatReply::NoAnswer, &e).is_empty());
    assert!(w.handle_reply::<Cfg>(HeartbeatReply::Failed, &e).is_empty());
}

#[test]
fn answers_to_heartbeats_are_those_of_a_stream() {
    let prev = Some(log_id(4, 1, 2));
    let of = HeartbeatReply::of_response;
    assert_eq!(of(prev, AppendEntriesResponse::Success), HeartbeatReply::Answer(Ok(prev)));
    let part = AppendEntriesResponse::PartialSuccess(None);
    assert_eq!(of(prev, part), HeartbeatReply::Answer(Ok(None)));
    let vote = Vote::new(9, 2);
    assert_eq!(
        of(prev, AppendEntriesResponse::HigherVote(vote)),
        HeartbeatReply::Answer(Err(StreamAppendError::HigherVote(vote)))
    );
    assert_eq!(
        of(prev, AppendEntriesResponse::Conflict),
        HeartbeatReply::Answer(Err(StreamAppendError::Conflict(log_id(4, 1, 2))))
    );
    assert_eq!(of(None, AppendEntriesResponse::Conflict), HeartbeatReply::NoAnswer);
}

#[test]
fn there_is_a_worker_for_each_target() {
    let mut h = HeartbeatWorkersHandle::new(1);
    let targets = |ids: &[u64], stream: u64| -> Vec<TargetProgress> {
        ids.iter().map(|id| TargetProgress { target: *id, stream_id: stream + id }).collect()
    };
    assert_eq!(h.spawn_workers(&targets(&[2, 3], 10), false), targets(&[2, 3], 10));
    assert_eq!(h.spawn_workers(&targets(&[3, 4], 20), false), targets(&[4], 20));
    assert_eq!(h.workers, [(3, 13), (4, 24)].into_iter().collect::<BTreeMap<u64, u64>>());
    let e = event(None);
    assert_eq!(h.broadcast(&vec![(4, e), (3, e)]), vec![(24, e), (13, e)]);
    assert_eq!(h.spawn_workers(&targets(&[3], 30), true), targets(&[3], 30));
    h.close_workers();
    assert!(h.workers.is_empty());
}

#[test]
fn a_leader_gives_way_to_a_greater_vote_only() {
    let h = EstablishHandler { id: 1 };
    let of = |vote: Vote| Candidate { vote, starting_time: at(0) };
    let lead = |vote: Vote| {
        let mut l = leading().engine.leader.unwrap();
        l.committed_vote = vote;
        l
    };
    let mut present = None;
    assert!(h.establish(&mut present, of(Vote::new(2, 1)), lead(Vote::new_committed(2, 1))));
    let mut other = lead(Vote::new_committed(2, 1));
    other.transfer_to = Some(9);
    assert!(!h.establish(&mut present, of(Vote::new(2, 1)), other));
    assert_eq!(present.as_ref().unwrap().transfer_to, None);
    assert_eq!(present.as_ref().unwrap().committed_vote, Vote::new_committed(2, 1));
    assert!(h.establish(&mut present, of(Vote::new(3, 1)), lead(Vote::new_committed(3, 1))));
    assert_eq!(present.as_ref().unwrap().committed_vote, Vote::new_committed(3, 1));
}

#[test]
fn replications_are_spawned_with_their_context() {
    let c = leading();
    let vote = Vote::new_committed(4, 1);
    let prog = TargetProgress { target: 2, stream_id: 8 };
    let s = c.spawn_replication_stream(vote, &prog, Some(log_id(4, 1, 2)));
    assert_eq!((s.handle.stream_id, s.handle.transmitting), (8, false));
    assert_eq!((s.context.id, s.context.target, s.context.stream_id), (1, 2, 8));
    assert_eq!(s.context.leader_vote, vote);
    assert_eq!(s.context, c.new_replication_task_context(vote, 8, 2));
    assert_eq!(s.progress.local_committed, Some(log_id(4, 1, 8)));
    assert_eq!(s.progress.remote_matched, Some(log_id(4, 1, 2)));
    let (_, replicate_rx) = {
        let (_, tx, rx) = channel(0u64);
        (tx, rx)
    };
    let (mut committed, tx, _) = channel(None);
    let (accepted, _, _) = channel(IOId::new(&vote));
    let (submitted, _, _) = channel(IOId::new(&vote));
    tx.send(&mut committed, Some(log_id(4, 1, 1))).unwrap();
    let mut b = IOBroadcast { committed, accepted, submitted };
    let w = b.new_event_watcher(replicate_rx);
    assert_eq!(b.committed.rx_count, 2);
    assert_eq!(w.committed_rx.seen_version, b.committed.version);
    assert_eq!(w.io_accepted_rx.waker_id, 1);
}

#[test]
fn a_snapshot_needs_its_worker() {
    let r = SnapshotReader;
    assert_eq!(r.get_snapshot(SnapshotRead::Answer(Some(4))), Ok(Some(4)));
    assert_eq!(r.get_snapshot(SnapshotRead::<u64>::Answer(None)), Ok(None));
    assert_eq!(
        r.get_snapshot(SnapshotRead::<u64>::NoWorker),
        Err("failed to upgrade cmd_tx, sm::Worker may have shutdown")
    );
    assert_eq!(
        r.get_snapshot(SnapshotRead::<u64>::NoAnswer),
        Err("failed to receive snapshot, sm::Worker may have shutdown")
    );
}
