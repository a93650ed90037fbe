use std::collections::{BTreeMap, BTreeSet};
use std::sync::Arc;

use zenoh_raft::batch::Batch;
use zenoh_raft::entry::{Entry, EntryPayload};
use zenoh_raft::errors::{
    ChangeMembershipError, ClientWriteError, ErrorSubject, ErrorVerb, Fatal, ForwardToLeader,
    InitializeError, LinearizableReadError, MessageError, PreconditionFailed, QuorumNotEnough,
    RPCTypes, StorageError,
};
use zenoh_raft::log_id::{LeaderId, LogId};
use zenoh_raft::membership::{ChangeMembers, Membership};
use zenoh_raft::message::{
    AppendEntriesRequest, LinearizerOption, TransferLeaderRequest, VoteRequest, VoteResponse,
};
use zenoh_raft::raft_core::action::{Condition, CoreAction, Recorded, Response};
use zenoh_raft::raft_core::commands::{
    apply_not_sent, state_machine_gone, Command, CommandOutcome, ReplicationSessionId, SmCommand,
    StoreWrite, VoteReply, VoteRequestKind,
};
use zenoh_raft::raft_core::dispatch::InstallFullSnapshotRequest;
use zenoh_raft::raft_core::handlers::{
    does_vote_match, CoreConfig, EngineState, RaftCore, ReplicationHandle, RuntimeConfig,
    TimerConfig,
};
use zenoh_raft::raft_core::heartbeat::TargetProgress;
use zenoh_raft::raft_core::notification::{
    ApplyResult, Notification, ReplicationResult, SmResponse,
};
use zenoh_raft::raft_core::pending_reads::{Linearizer, PendingRead, PendingReadQueue, ReadLogId};
use zenoh_raft::raft_core::raft_msg::{ExternalCommand, MembershipPayloads, RaftMsg};
use zenoh_raft::raft_core::responders::ClientResponderQueue;
use zenoh_raft::raft_core::runtime::{
    rebalance, run_engine_commands, select_channel, send_satisfied_responds, Channel,
    CommandResult, LoopEvent, LoopStep, MessageBatch, NotificationBatch, PendingRespond,
    ReadyChannels, Rebalance,
};
use zenoh_raft::raft_core::state::{
    Candidate, Leader, Leased, LogProgress, MembershipState, Precondition, RaftState, ServerState,
    TargetState,
};
use zenoh_raft::storage::{Snapshot, SnapshotMeta, StoredMembership};
use zenoh_raft::time::{Duration, Instant};
use zenoh_raft::type_config::{log_id, UTConfig};
use zenoh_raft::vote::{IOId, Vote};

type Cfg = UTConfig<u64>;
type Core = RaftCore<Cfg>;
type Actions = Vec<CoreAction<Cfg>>;

fn secs(n: u64) -> Instant {
    Instant { nanos: n as u128 * 1_000_000_000 }
}

fn set(ids: &[u64]) -> BTreeSet<u64> {
    ids.iter().copied().collect()
}

fn membership(voters: &[u64]) -> Membership<u64> {
    let nodes: BTreeMap<u64, u64> = voters.iter().map(|id| (*id, id * 10)).collect();
    Membership { configs: vec![set(voters)], nodes }
}

fn stored(id: Option<LogId>, voters: &[u64]) -> Arc<StoredMembership<u64>> {
    Arc::new(StoredMembership::new(id, membership(voters)))
}

fn state(vote: Vote, voters: &[u64]) -> RaftState<u64> {
    let id = Some(log_id(1, 0, 1));
    RaftState {
        vote: Leased::new(secs(100), Duration::from_secs(1), vote),
        membership_state: MembershipState::new(stored(id, voters), stored(id, voters)),
        server_state: ServerState::Follower,
        last_log_id: Some(log_id(1, 0, 1)),
        local_committed: None,
        cluster_committed: None,
        io_applied: None,
        io_snapshot: None,
        io_purged: None,
        log_progress: LogProgress { accepted: None, submitted: None, flushed: None },
    }
}

fn following(vote: Vote, voters: &[u64]) -> Core {
    RaftCore {
        id: 1,
        config: CoreConfig { heartbeat_interval: 50, election_timeout_min: 150 },
        runtime_config: RuntimeConfig {
            enable_heartbeat: true,
            enable_elect: true,
            enable_pre_vote: true,
        },
        timer_config: TimerConfig {
            leader_lease: Duration::from_secs(1),
            election_timeout: Duration::from_secs(2),
            smaller_log_timeout: Duration::from_secs(4),
        },
        engine: EngineState {
            state: state(vote, voters),
            leader: None,
            candidate: None,
            pre_candidate: None,
            greater_log: false,
        },
        client_responders: ClientResponderQueue::new(),
        pending_reads: PendingReadQueue::new(),
        replications: BTreeMap::new(),
        snapshot_tried_at: None,
        metrics_recorder: None,
    }
}

fn leader_of(vote: Vote) -> Leader {
    Leader {
        committed_vote: vote,
        noop_log_id: log_id(3, 1, 4),
        transfer_to: None,
        last_quorum_acked: None,
        self_quorum: false,
        lease_valid: true,
        next_heartbeat: secs(100),
        progress: vec![
            TargetState { id: 1, matching: None, acked_at: None, heartbeat_due: true },
            TargetState {
                id: 2,
                matching: Some(log_id(1, 0, 1)),
                acked_at: None,
                heartbeat_due: true,
            },
            TargetState { id: 3, matching: None, acked_at: None, heartbeat_due: false },
        ],
    }
}

fn leading() -> Core {
    let vote = Vote::new_committed(3, 1);
    let mut c = following(vote, &[1, 2, 3]);
    c.engine.leader = Some(leader_of(vote));
    c.engine.state.server_state = ServerState::Leader;
    c
}

fn failed_to(action: &CoreAction<Cfg>, tx: u64, to: &ForwardToLeader<u64>) -> bool {
    matches!(action, CoreAction::FailWrite { tx: t, error: ClientWriteError::ForwardToLeader(e) }
        if *t == tx && e == to)
}

fn change_failed(actions: &Actions, tx: u64, error: ChangeMembershipError) -> bool {
    actions.len() == 1
        && matches!(&actions[0], CoreAction::FailWrite {
            tx: t,
            error: ClientWriteError::ChangeMembershipError(e),
        } if *t == tx && *e == error)
}

#[test]
fn test_get_read_log_id() {
    let noop = log_id(3, 1, 4);
    let leader = leader_of(Vote::new_committed(3, 1));

    let got = leader.get_read_log_id(&Some(log_id(0, 1, 0)));
    assert_eq!(ReadLogId::new(noop, None), got);

    let committed = log_id(3, 1, 5);
    let got = leader.get_read_log_id(&Some(committed));
    assert_eq!(ReadLogId::new(noop, Some(committed)), got);
}

fn m12() -> Membership<u64> {
    Membership::new_with_defaults(vec![set(&[1, 2])], vec![])
}

fn m123() -> Membership<u64> {
    let nodes: BTreeMap<u64, u64> = [(1, 4), (2, 5), (3, 6)].into_iter().collect();
    Membership::new(vec![set(&[1, 2])], nodes).unwrap()
}

fn state_of(vote: Vote, m: fn() -> Membership<u64>) -> RaftState<u64> {
    let mut rs = state(vote, &[]);
    rs.vote = Leased::new(secs(7), Duration::from_millis(500), vote);
    rs.membership_state = MembershipState::new(
        Arc::new(StoredMembership::new(Some(log_id(1, 0, 1)), m())),
        Arc::new(StoredMembership::new(Some(log_id(1, 0, 1)), m())),
    );
    rs
}

#[test]
fn test_forward_to_leader_vote_not_committed() {
    let rs = state_of(Vote::new(1, 2), m12);
    assert_eq!(ForwardToLeader::empty(), rs.forward_to_leader());
}

#[test]
fn test_forward_to_leader_not_a_member() {
    let rs = state_of(Vote::new_committed(1, 3), m12);
    assert_eq!(ForwardToLeader::empty(), rs.forward_to_leader());
}

#[test]
fn test_forward_to_leader_has_leader() {
    let rs = state_of(Vote::new_committed(1, 3), m123);
    assert_eq!(ForwardToLeader::new(3, 6), rs.forward_to_leader());
}

#[test]
fn a_node_that_hands_over_forwards_to_the_next_leader() {
    let rs = state_of(Vote::new_committed(1, 2), m123);
    assert_eq!(ForwardToLeader::new(1, 4), rs.new_forward_to_leader(1));
    let mut c = leading();
    assert!(c.ensure_leader_handler().is_ok());
    c.engine.leader.as_mut().unwrap().transfer_to = Some(3);
    assert_eq!(c.ensure_leader_handler().err(), Some(ForwardToLeader::new(3, 30)));
    assert_eq!(c.ensure_writable_leader_handler().err(), Some(ForwardToLeader::new(3, 30)));
    assert_eq!(c.send_heartbeat().0, false);
}

#[test]
fn only_a_writable_leader_appends() {
    let payload = || Batch::One(EntryPayload::Normal(7));
    let c = leading();
    let a = c.write_entries(payload(), Batch::One(Some(5)));
    assert_eq!(a.len(), 1);
    assert!(matches!(&a[0], CoreAction::LeaderAppend {
        payloads: Batch::One(EntryPayload::Normal(7)),
        responders: Batch::One(Some(5)),
    }));

    let mut c = leading();
    c.engine.leader.as_mut().unwrap().lease_valid = false;
    let a = c.write_entries(payload(), Batch::Many(vec![Some(5), None, Some(6)]));
    assert_eq!(a.len(), 2);
    assert!(failed_to(&a[0], 5, &ForwardToLeader::empty()));
    assert!(failed_to(&a[1], 6, &ForwardToLeader::empty()));

    let c = following(Vote::new_committed(4, 2), &[1, 2, 3]);
    let a = c.write_entries(payload(), Batch::One(Some(5)));
    assert!(a.len() == 1 && failed_to(&a[0], 5, &ForwardToLeader::new(2, 20)));
}

#[test]
fn a_write_for_another_leader_is_forwarded() {
    let c = leading();
    let me = LeaderId { term: 3, node_id: 1 };
    let other = LeaderId { term: 2, node_id: 1 };
    let p = || Batch::One(EntryPayload::Blank);
    let a = c.handle_client_write(p(), Batch::One(Some(5)), Some(me));
    assert!(matches!(a[0], CoreAction::LeaderAppend { .. }));
    let a = c.handle_client_write(p(), Batch::One(Some(5)), Some(other));
    assert!(a.len() == 1 && failed_to(&a[0], 5, &ForwardToLeader::new(1, 10)));
    let a = c.handle_client_write(p(), Batch::One(None), Some(other));
    assert!(a.is_empty());
    let a = c.handle_client_write(p(), Batch::One(Some(5)), None);
    assert!(matches!(a[0], CoreAction::LeaderAppend { .. }));
}

#[test]
fn appended_writers_wait_at_their_entries() {
    let mut c = leading();
    c.metrics_recorder = Some(77);
    let ids = vec![log_id(3, 1, 5), log_id(3, 1, 6), log_id(3, 1, 7)];
    let a = c.entries_appended(&ids, &Batch::Many(vec![Some(50), None, Some(70)]));
    assert_eq!(c.client_responders.items, vec![(5, 50), (7, 70)]);
    assert!(a.len() == 1
        && matches!(a[0], CoreAction::Record { recorder: 77, what: Recorded::WriteBatch(3) }));
}

#[test]
fn writers_are_answered_once() {
    let mut c = leading();
    for i in 5..10 {
        c.client_responders.push(i, i * 10);
    }
    let (plan, a) = c.apply_to_state_machine(log_id(3, 1, 5), log_id(3, 1, 6));
    assert_eq!(plan.entry_count, 2);
    assert_eq!(plan.responders, vec![(5, 50), (6, 60)]);
    assert!(a.is_empty());
    assert_eq!(c.client_responders.first_index(), Some(7));

    let a = c.after_truncate(Some(log_id(3, 1, 8)));
    assert!(a.len() == 1 && failed_to(&a[0], 90, &ForwardToLeader::new(1, 10)));
    let a = c.after_purge(log_id(3, 1, 7));
    assert_eq!(a.len(), 2);
    assert!(failed_to(&a[0], 70, &ForwardToLeader::new(1, 10)));
    assert!(matches!(a[1], CoreAction::UpdatePurged { upto } if upto == log_id(3, 1, 7)));
    assert_eq!(c.client_responders.items, vec![(8, 80)]);
    let a = c.after_truncate(None);
    assert!(a.len() == 1 && failed_to(&a[0], 80, &ForwardToLeader::new(1, 10)));
    assert_eq!(c.client_responders.first_index(), None);
}

fn option() -> LinearizerOption {
    LinearizerOption {
        max_quorum_ack_age: None,
        wait_timeout: Some(Duration::from_secs(3)),
        heartbeat_if_quorum_ack_stale: true,
    }
}

#[test]
fn a_read_is_answered_by_a_confirmed_leader() {
    let mut c = leading();
    c.engine.state.io_applied = Some(log_id(3, 1, 4));
    c.engine.state.local_committed = Some(log_id(3, 1, 5));
    let l = c.engine.leader.as_mut().unwrap();
    l.last_quorum_acked = Some(secs(200));
    let expected = Linearizer {
        node_id: 1,
        read_log_id: ReadLogId::new(log_id(3, 1, 4), Some(log_id(3, 1, 5))),
        applied: Some(log_id(3, 1, 4)),
    };
    let almost = Instant { nanos: secs(201).nanos - 1 };
    let a = c.handle_get_linearizer(almost, option(), 9);
    assert!(a.len() == 1
        && matches!(&a[0], CoreAction::ReplyRead { tx: 9, result: Ok(l) } if *l == expected));

    // An acknowledgement as old as allowed is not fresh.
    let a = c.handle_get_linearizer(secs(201), option(), 9);
    assert_eq!(a.len(), 2);
    assert!(matches!(a[0], CoreAction::SendHeartbeat { bypass_min_interval: true }));
    assert!(matches!(a[1], CoreAction::SetReadDeadline { deadline: Some(d) } if d == secs(204)));
    assert_eq!(
        c.pending_reads.items,
        vec![PendingRead {
            min_quorum_acked_at: secs(200),
            deadline: secs(204),
            linearizer: expected,
            tx: 9,
        }]
    );

    let mut quiet = option();
    quiet.heartbeat_if_quorum_ack_stale = false;
    let a = c.handle_get_linearizer(secs(200 + 9), quiet, 10);
    assert!(a.len() == 1
        && matches!(a[0], CoreAction::SetReadDeadline { deadline: Some(d) } if d == secs(204)));

    let mut now_or_never = option();
    now_or_never.wait_timeout = Some(Duration::from_secs(0));
    let a = c.handle_get_linearizer(secs(209), now_or_never, 11);
    let refused = QuorumNotEnough { min_quorum_acked_at: secs(208) };
    assert!(matches!(&a[0], CoreAction::ReplyRead {
        tx: 11,
        result: Err(LinearizableReadError::QuorumNotEnough(e)),
    } if *e == refused));

    c.engine.leader.as_mut().unwrap().self_quorum = true;
    let a = c.handle_get_linearizer(secs(300), option(), 12);
    assert!(matches!(&a[0], CoreAction::ReplyRead { tx: 12, result: Ok(_) }));

    let mut c = following(Vote::new_committed(4, 2), &[1, 2]);
    let a = c.handle_get_linearizer(secs(300), option(), 13);
    assert!(matches!(&a[0], CoreAction::ReplyRead {
        tx: 13,
        result: Err(LinearizableReadError::ForwardToLeader(f)),
    } if *f == ForwardToLeader::new(2, 20)));
}

#[test]
fn early_reads_are_handled_where_no_time_is_taken_off() {
    let msg = || RaftMsg::GetLinearizer { linearizer_option: option(), tx: 1 };
    let early = Instant { nanos: 5 };
    let mut c = leading();
    c.engine.leader.as_mut().unwrap().last_quorum_acked = None;
    assert!(!c.can_handle(early, &msg()));
    assert!(c.can_handle(secs(1), &msg()));
    assert!(!c.can_handle(Instant { nanos: u128::MAX }, &msg()));
    c.engine.leader.as_mut().unwrap().last_quorum_acked = Some(Instant { nanos: 4 });
    assert!(c.can_handle(early, &msg()));
    assert_eq!(c.handle_get_linearizer(early, option(), 1).len(), 1);
    c.engine.leader.as_mut().unwrap().last_quorum_acked = None;
    c.engine.leader.as_mut().unwrap().self_quorum = true;
    assert!(c.can_handle(early, &msg()));
    let mut c = following(Vote::new_committed(4, 2), &[1, 2]);
    assert!(c.can_handle(early, &msg()));
    assert_eq!(c.handle_get_linearizer(early, option(), 1).len(), 1);
}

#[test]
fn election_times_are_added_up_only_for_a_greater_log() {
    let mut c = following(Vote::new(4, 2), &[1, 2]);
    c.timer_config.smaller_log_timeout = Duration { nanos: u128::MAX };
    c.engine.greater_log = false;
    assert!(c.can_tick());
    c.engine.greater_log = true;
    assert_eq!(c.can_tick(), !c.runtime_config.enable_elect);
    c.timer_config.smaller_log_timeout = Duration { nanos: 1 };
    assert!(c.can_tick());
}

#[test]
fn a_postponed_command_need_not_be_one_that_can_run() {
    let mut c = following(Vote::new(4, 2), &[1, 2]);
    let cmd = || Command::AppendEntries { committed_vote: Vote::new_committed(4, 1), entries: vec![] };
    assert!(!c.can_run(&cmd()));
    assert!(!c.can_run(&Command::Replicate { req: 1, target: 9 }));
    assert!(c.can_run(&Command::CloseReplicationStreams));
    let unmet = Condition::IOFlushed { io_id: IOId::Vote(Vote::new(99, 9)) };
    assert!(!unmet.is_met(&c.engine.state));
    assert!(matches!(
        c.run_command(secs(1), cmd(), Some(unmet)),
        CommandOutcome::Postponed(Command::AppendEntries { .. })
    ));
}

fn read(tx: u64, needs: u64, deadline: u64) -> PendingRead {
    PendingRead {
        min_quorum_acked_at: secs(needs),
        deadline: secs(deadline),
        linearizer: Linearizer {
            node_id: 1,
            read_log_id: ReadLogId::new(log_id(3, 1, 4), None),
            applied: None,
        },
        tx,
    }
}

#[test]
fn waiting_reads_are_satisfied_before_they_expire() {
    let mut c = leading();
    c.engine.state.io_applied = Some(log_id(3, 1, 6));
    c.pending_reads.push(read(1, 10, 20));
    c.pending_reads.push(read(2, 15, 20));
    c.pending_reads.push(read(3, 15, 30));
    c.engine.leader.as_mut().unwrap().last_quorum_acked = Some(secs(12));
    let a = c.process_pending_reads(secs(25));
    assert_eq!(a.len(), 3);
    assert!(matches!(&a[0], CoreAction::ReplyRead { tx: 1, result: Ok(l) }
        if l.applied == Some(log_id(3, 1, 6))));
    assert!(matches!(&a[1], CoreAction::ReplyRead {
        tx: 2,
        result: Err(LinearizableReadError::QuorumNotEnough(e)),
    } if e.min_quorum_acked_at == secs(15)));
    assert!(matches!(a[2], CoreAction::SetReadDeadline { deadline: Some(d) } if d == secs(30)));
    assert_eq!(c.pending_reads.items, vec![read(3, 15, 30)]);
}

#[test]
fn a_node_that_no_longer_leads_fails_its_waiting_reads() {
    let mut c = following(Vote::new_committed(4, 2), &[1, 2]);
    c.pending_reads.push(read(1, 10, 20));
    c.pending_reads.push(read(2, 10, 40));
    let forwarded = |a: &CoreAction<Cfg>, tx: u64| {
        matches!(a, CoreAction::ReplyRead {
            tx: t,
            result: Err(LinearizableReadError::ForwardToLeader(f)),
        } if *t == tx && *f == ForwardToLeader::new(2, 20))
    };
    let a = c.fail_pending_reads();
    assert!(a.len() == 3 && forwarded(&a[0], 1) && forwarded(&a[1], 2));
    assert!(matches!(a[2], CoreAction::SetReadDeadline { deadline: None }));
    assert!(c.pending_reads.items.is_empty());

    c.pending_reads.push(read(3, 10, 20));
    let a = c.process_pending_reads(secs(15));
    assert!(a.len() == 2 && forwarded(&a[0], 3));
    assert!(c.pending_reads.items.is_empty());
}

#[test]
fn pending_reads_are_drained_by_their_times() {
    let mut q = PendingReadQueue::new();
    assert_eq!(q.earliest_deadline(), None);
    q.push(read(1, 10, 30));
    q.push(read(2, 20, 25));
    q.push(read(3, 30, 27));
    assert_eq!(q.earliest_deadline(), Some(secs(25)));
    // An acknowledgement at the very time a read needs does not do.
    let out: Vec<u64> = q.drain_satisfied(secs(20)).iter().map(|r| r.tx).collect();
    assert_eq!(out, vec![1]);
    let out: Vec<u64> = q.drain_expired(secs(25)).iter().map(|r| r.tx).collect();
    assert_eq!(out, vec![2]);
    let out: Vec<u64> = q.drain_all().iter().map(|r| r.tx).collect();
    assert_eq!(out, vec![3]);
}

#[test]
fn responders_are_drained_by_their_indexes() {
    let mut q: ClientResponderQueue<u64> = ClientResponderQueue::new();
    for i in [3, 5, 5, 8] {
        q.push(i, i * 100);
    }
    assert_eq!(q.first_index(), Some(3));
    assert_eq!(q.drain_upto(4), vec![(3, 300)]);
    assert_eq!(q.drain_from(6), vec![(8, 800)]);
    assert_eq!(q.drain_upto(5), vec![(5, 500), (5, 500)]);
    assert_eq!(q.first_index(), None);
}

fn proposed_payload(actions: &Actions, i: usize) -> &Membership<u64> {
    match &actions[i] {
        CoreAction::LeaderAppend { payloads: Batch::One(EntryPayload::Membership(m)), .. } => m,
        _ => panic!("no membership appended"),
    }
}

#[test]
fn memberships_are_changed_by_a_leader() {
    let c = leading();
    let one = |p| MembershipPayloads::<Cfg>::Uniform(p);
    let add = || ChangeMembers::AddNodes([(4, 40)].into_iter().collect());
    let a = c.change_membership(add(), false, vec![], one(EntryPayload::Blank), 5);
    let m = proposed_payload(&a, 0);
    assert_eq!(m.configs, vec![set(&[1, 2, 3])]);
    assert_eq!(m.nodes.get(&4), Some(&40));

    let replace = || ChangeMembers::ReplaceAllVoters(set(&[1, 2]));
    let a = c.change_membership(
        replace(),
        true,
        vec![],
        MembershipPayloads::JointOrUniform {
            joint: EntryPayload::Normal(1),
            uniform: EntryPayload::Normal(2),
            unused_tx: 33,
        },
        5,
    );
    assert_eq!(a.len(), 2);
    assert!(matches!(a[0], CoreAction::ReturnPayload { payload: EntryPayload::Normal(2), tx: 33 }));
    assert_eq!(proposed_payload(&a, 1).configs, vec![set(&[1, 2, 3]), set(&[1, 2])]);

    let none = || ChangeMembers::ReplaceAllVoters(set(&[]));
    let a = c.change_membership(none(), false, vec![], one(EntryPayload::Blank), 5);
    assert!(change_failed(&a, 5, ChangeMembershipError::EmptyMembership));
    let stranger = || ChangeMembers::ReplaceAllVoters(set(&[1, 9]));
    let a = c.change_membership(stranger(), false, vec![], one(EntryPayload::Blank), 5);
    assert!(change_failed(&a, 5, ChangeMembershipError::LearnerNotFound { node_id: 9 }));

    let mut c = leading();
    c.engine.state.membership_state.committed = stored(None, &[1]);
    let a = c.change_membership(replace(), false, vec![], one(EntryPayload::Blank), 5);
    assert!(change_failed(&a, 5, ChangeMembershipError::InProgress {
        committed: None,
        membership_log_id: Some(log_id(1, 0, 1)),
    }));

    let stale = Precondition::LastMembershipLogId { last_membership_log_id: None };
    let fresh =
        Precondition::LastMembershipLogId { last_membership_log_id: Some(log_id(1, 0, 1)) };
    let a = c.change_membership(replace(), false, vec![fresh, stale], one(EntryPayload::Blank), 5);
    assert!(matches!(&a[0], CoreAction::FailWrite {
        tx: 5,
        error: ClientWriteError::PreconditionFailed(PreconditionFailed::LastMembershipLogId {
            expected: None,
            actual: Some(l),
        }),
    } if *l == log_id(1, 0, 1)));

    let c = following(Vote::new_committed(4, 2), &[1, 2]);
    let a = c.change_membership(replace(), false, vec![], one(EntryPayload::Blank), 5);
    assert!(a.len() == 1 && failed_to(&a[0], 5, &ForwardToLeader::new(2, 20)));
}

#[test]
fn a_membership_is_appended_once_the_leader_has_committed() {
    let mut c = leading();
    let payload = || EntryPayload::Membership(membership(&[1, 2]));
    let a = c.append_membership(payload(), vec![], Ok(()), 5);
    assert!(change_failed(&a, 5, ChangeMembershipError::UncommittedLeaderLog {
        committed: None,
        leader_log_id: log_id(3, 1, 4),
    }));
    let stale = Precondition::LastMembershipLogId { last_membership_log_id: None };
    let a = c.append_membership(payload(), vec![stale], Ok(()), 5);
    assert!(matches!(&a[0], CoreAction::FailWrite {
        error: ClientWriteError::PreconditionFailed(_),
        ..
    }));
    c.engine.state.cluster_committed = Some(log_id(3, 1, 4));
    let a = c.append_membership(payload(), vec![], Ok(()), 5);
    assert_eq!(proposed_payload(&a, 0).configs, vec![set(&[1, 2])]);
    let a = c.append_membership(
        payload(),
        vec![],
        Err(ChangeMembershipError::EmptyMembership),
        5,
    );
    assert!(change_failed(&a, 5, ChangeMembershipError::EmptyMembership));
    c.engine.leader.as_mut().unwrap().lease_valid = false;
    let a = c.append_membership(payload(), vec![], Ok(()), 5);
    assert!(a.len() == 1 && failed_to(&a[0], 5, &ForwardToLeader::empty()));
}

#[test]
fn a_pristine_node_is_initialized() {
    let mut c = following(Vote::new(0, 0), &[]);
    c.engine.state.last_log_id = None;
    let members: BTreeMap<u64, u64> = [(1, 10), (2, 20)].into_iter().collect();
    let a = c.handle_initialize(members.clone(), 5);
    assert!(matches!(&a[0], CoreAction::Initialize { membership: m, tx: 5 }
        if m.configs == vec![set(&[1, 2])] && m.nodes == members));

    let refused = |a: &Actions, last_log_id, vote| {
        a.len() == 1
            && matches!(&a[0], CoreAction::Respond {
                when: None,
                resp: Response::Initialize(Err(e)),
                tx: 5,
            } if *e == InitializeError::NotAllowed { last_log_id, vote })
    };
    c.engine.state.vote.vote = Vote::new(1, 1);
    assert!(refused(&c.handle_initialize(members.clone(), 5), None, Vote::new(1, 1)));
    c.engine.state.vote.vote = Vote::new(0, 0);
    c.engine.state.last_log_id = Some(log_id(0, 0, 0));
    assert!(refused(&c.handle_initialize(members, 5), Some(log_id(0, 0, 0)), Vote::new(0, 0)));

    let io_id = IOId::new(&Vote::new(1, 1));
    c.engine.state.log_progress.accepted = Some(io_id);
    let a = c.initialized(Ok(()), 5);
    assert_eq!(a.len(), 2);
    assert!(matches!(&a[0], CoreAction::Respond {
        when: Some(Condition::IOFlushed { io_id: i }),
        resp: Response::Initialize(Ok(())),
        tx: 5,
    } if *i == io_id));
    assert!(matches!(a[1], CoreAction::Elect));
    let a = c.initialized(Err(InitializeError::NotInMembers { node_id: 1 }), 5);
    assert!(a.len() == 1 && matches!(&a[0], CoreAction::Respond { when: None, .. }));
}

#[test]
fn transfer_needs_an_up_to_date_log() {
    let from = Vote::new_committed(3, 2);
    let c = following(from, &[1, 2]);
    let last = Some(log_id(1, 0, 1));
    let a = c.handle_transfer_leader(from, 1, last);
    assert!(a.len() == 2 && matches!(a[0], CoreAction::DisableLease));
    assert!(matches!(a[1], CoreAction::ElectByTransfer));
    let a = c.handle_transfer_leader(from, 1, Some(log_id(1, 0, 2)));
    assert!(a.len() == 1 && matches!(a[0], CoreAction::DisableLease));
    let a = c.handle_transfer_leader(from, 2, last);
    assert!(a.len() == 1 && matches!(a[0], CoreAction::DisableLease));
    let a = c.handle_transfer_leader(Vote::new_committed(4, 2), 1, last);
    assert!(a.is_empty());
}

#[test]
fn leaders_and_learners_do_not_elect() {
    let elect = |pre_vote| ExternalCommand::Elect { pre_vote };
    let mut follower = following(Vote::new_committed(4, 2), &[1, 2]);
    assert!(matches!(follower.handle_external_command(elect(true))[0], CoreAction::PreElect));
    assert!(matches!(follower.handle_external_command(elect(false))[0], CoreAction::Elect));
    let mut learner = following(Vote::new_committed(4, 2), &[2, 3]);
    assert!(learner.handle_external_command(elect(true)).is_empty());
    assert!(leading().handle_external_command(elect(false)).is_empty());
    let late = secs(1000);
    assert!(learner.handle_tick_election(late).is_empty());
    assert!(leading().handle_tick_election(late).is_empty());
}

#[test]
fn external_commands_are_handled() {
    let mut c = leading();
    let mut run = |cmd| c.handle_external_command(cmd);
    assert!(run(ExternalCommand::SetMetricsRecorder { recorder: Some(8) }).is_empty());
    let a = run(ExternalCommand::Heartbeat);
    assert_eq!(a.len(), 2);
    assert!(matches!(a[0], CoreAction::SendHeartbeat { bypass_min_interval: false }));
    assert!(matches!(a[1], CoreAction::Record { recorder: 8, what: Recorded::Heartbeat }));
    let a = run(ExternalCommand::Snapshot);
    assert!(matches!(a[0], CoreAction::TriggerSnapshot { at: None }));
    let a = run(ExternalCommand::PurgeLog { upto: 12 });
    assert!(matches!(a[0], CoreAction::TriggerPurgeLog { upto: 12 }));
    let a = run(ExternalCommand::TriggerTransferLeader { to: 2 });
    assert!(matches!(a[0], CoreAction::TriggerTransferLeader { to: 2 }));
    let a = run(ExternalCommand::AllowNextRevert { to: 2, allow: true, tx: 4 });
    assert!(matches!(a[0], CoreAction::AllowNextRevert { to: 2, allow: true, tx: 4 }));
    let same = ExternalCommand::RefreshServerState {
        vote: Some(Vote::new_committed(3, 1)),
        membership_log_id: Some(log_id(1, 0, 1)),
    };
    assert!(matches!(run(same)[0], CoreAction::RefreshServerState));
    let stale = ExternalCommand::RefreshServerState {
        vote: Some(Vote::new_committed(2, 1)),
        membership_log_id: None,
    };
    assert!(run(stale).is_empty());
    let any = ExternalCommand::RefreshServerState { vote: None, membership_log_id: None };
    assert_eq!(run(any).len(), 1);

    let mut follower = following(Vote::new_committed(4, 2), &[1, 2]);
    let a = follower.handle_external_command(ExternalCommand::AllowNextRevert {
        to: 2,
        allow: true,
        tx: 4,
    });
    assert!(matches!(&a[0], CoreAction::RefuseRevert { tx: 4, error }
        if *error == ForwardToLeader::new(2, 20)));
}

#[test]
fn a_tick_makes_a_voter_stand_for_election() {
    let mut c = following(Vote::new_committed(4, 2), &[1, 2, 3]);
    // The lease of a second and an election timeout of two seconds have to pass.
    assert!(c.handle_tick_election(secs(103)).is_empty());
    let late = Instant { nanos: secs(103).nanos + 1 };
    let a = c.handle_tick_election(late);
    assert!(a.len() == 2 && matches!(a[0], CoreAction::ResetGreaterLog));
    assert!(matches!(a[1], CoreAction::PreElect));
    c.engine.greater_log = true;
    assert!(c.handle_tick_election(late).is_empty());
    let later = Instant { nanos: secs(107).nanos + 1 };
    assert_eq!(c.handle_tick_election(later).len(), 2);
    c.engine.pre_candidate = Some(Candidate { vote: Vote::new(5, 1), starting_time: secs(105) });
    assert!(c.handle_tick_election(later).is_empty());
    assert_eq!(c.handle_tick_election(secs(111)).len(), 2);
    c.runtime_config.enable_pre_vote = false;
    assert!(matches!(c.handle_tick_election(later)[1], CoreAction::Elect));
    c.runtime_config.enable_elect = false;
    assert!(c.handle_tick_election(later).is_empty());

    let mut single = following(Vote::new(0, 0), &[1]);
    let a = single.handle_tick_election(secs(100));
    assert!(a.len() == 2 && matches!(a[1], CoreAction::Elect));
    single.engine.candidate = Some(Candidate { vote: Vote::new(1, 1), starting_time: secs(99) });
    assert!(single.handle_tick_election(secs(100)).is_empty());

    let a = c.handle_tick(later);
    assert!(a.len() == 1 && matches!(a[0], CoreAction::TickHeartbeat { now } if now == later));
}

#[test]
fn a_due_heartbeat_is_sent() {
    let mut c = leading();
    assert!(c.tick_heartbeat(secs(99), secs(99)).is_empty());
    let a = c.tick_heartbeat(secs(100), secs(101));
    assert!(matches!(a[0], CoreAction::SendHeartbeat { bypass_min_interval: false }));
    let next = c.engine.leader.as_ref().unwrap().next_heartbeat;
    assert_eq!(next.nanos, secs(101).nanos + 50_000_000);
    c.runtime_config.enable_heartbeat = false;
    assert!(c.tick_heartbeat(secs(200), secs(200)).is_empty());
    assert!(c.engine.leader.as_ref().unwrap().next_heartbeat > next);
}

#[test]
fn votes_are_answered_when_they_are_on_disk() {
    let mut c = following(Vote::new(4, 2), &[1, 2]);
    c.metrics_recorder = Some(3);
    let rpc = VoteRequest::new(Vote::new(4, 2), None);
    let a = c.handle_vote_request(rpc, 6);
    assert!(matches!(&a[0], CoreAction::HandleVoteRequest { rpc: r, tx: 6 } if *r == rpc));
    let resp = VoteResponse::new(Vote::new(4, 2), None, true);
    let a = c.vote_request_handled(resp, 6);
    assert_eq!(a.len(), 2);
    assert!(matches!(a[0], CoreAction::Record { recorder: 3, what: Recorded::Vote }));
    assert!(matches!(&a[1], CoreAction::Respond {
        when: Some(Condition::IOFlushed { io_id }),
        resp: Response::Vote(r),
        tx: 6,
    } if *r == resp && *io_id == IOId::new(&Vote::new(4, 2))));
    let a = c.handle_pre_vote_request(rpc, 6);
    assert!(matches!(&a[0], CoreAction::HandlePreVoteRequest { tx: 6, .. }));
    let a = c.pre_vote_request_handled(resp, 6);
    assert!(a.len() == 1 && matches!(&a[0], CoreAction::Respond { when: None, tx: 6, .. }));
}

#[test]
fn messages_are_dispatched() {
    let mut c = leading();
    let mut run = |msg| c.handle_api_msg(secs(500), msg, Ok(()));
    let rpc = AppendEntriesRequest {
        vote: Vote::new(4, 2),
        prev_log_id: Some(log_id(1, 0, 1)),
        entries: vec![Entry { log_id: log_id(4, 2, 2), payload: EntryPayload::Blank }],
        leader_commit: Some(log_id(1, 0, 1)),
    };
    let a = run(RaftMsg::AppendEntries { rpc, tx: 1 });
    assert_eq!(a.len(), 2);
    assert!(matches!(&a[0], CoreAction::HandleAppendEntries { vote, prev_log_id, entries, tx: 1 }
        if *vote == Vote::new(4, 2) && *prev_log_id == Some(log_id(1, 0, 1)) && entries.len() == 1));
    assert!(matches!(&a[1], CoreAction::UpdateCommitted { committed_vote, log_id: l }
        if *committed_vote == Vote::new_committed(4, 2) && *l == Some(log_id(1, 0, 1))));
    let a = run(RaftMsg::WithRaftState { req: 9 });
    assert!(matches!(a[0], CoreAction::RunWithState { req: 9 }));
    let a = run(RaftMsg::GetLinearizer { linearizer_option: option(), tx: 2 });
    assert!(matches!(a[1], CoreAction::SetReadDeadline { .. }));
    let a = run(RaftMsg::HandleTransferLeader {
        from: Vote::new_committed(3, 1),
        to: 2,
        last_log_id: None,
    });
    assert!(matches!(a[0], CoreAction::DisableLease));
    let a = run(RaftMsg::ClientWrite {
        payloads: Batch::One(EntryPayload::Blank),
        responders: Batch::One(None),
        expected_leader: None,
    });
    assert!(matches!(a[0], CoreAction::LeaderAppend { .. }));
    let rpc = VoteRequest::new(Vote::new(5, 2), None);
    let a = run(RaftMsg::RequestVote { rpc, tx: 3 });
    assert!(matches!(a[0], CoreAction::HandleVoteRequest { tx: 3, .. }));
    let a = run(RaftMsg::RequestPreVote { rpc, tx: 3 });
    assert!(matches!(a[0], CoreAction::HandlePreVoteRequest { tx: 3, .. }));
    let a = run(RaftMsg::Initialize { members: BTreeMap::new(), tx: 4 });
    assert!(matches!(a[0], CoreAction::Respond { tx: 4, .. }));
    let a = run(RaftMsg::ExternalCommand { cmd: ExternalCommand::Snapshot });
    assert!(matches!(a[0], CoreAction::TriggerSnapshot { at: None }));
    let a = run(RaftMsg::AppendMembership {
        payload: EntryPayload::Membership(membership(&[1])),
        preconditions: vec![],
        tx: 5,
    });
    assert!(change_failed(&a, 5, ChangeMembershipError::UncommittedLeaderLog {
        committed: None,
        leader_log_id: log_id(3, 1, 4),
    }));
    let a = run(RaftMsg::ChangeMembership {
        changes: ChangeMembers::RemoveVoters(set(&[2])),
        payloads: MembershipPayloads::Uniform(EntryPayload::Blank),
        retain: false,
        preconditions: vec![],
        tx: 5,
    });
    assert_eq!(proposed_payload(&a, 0).configs, vec![set(&[1, 2, 3]), set(&[1, 3])]);
}

#[test]
fn stale_messages_are_ignored() {
    let mut c = following(Vote::new(5, 1), &[1, 2]);
    let resp = VoteResponse::new(Vote::new(5, 1), None, true);
    let vote = |candidate_vote| Notification::VoteResponse { target: 2, resp, candidate_vote };
    let pre = |candidate_vote| Notification::PreVoteResponse { target: 2, resp, candidate_vote };
    let mut run = |c: &mut Core, n| c.handle_notification(secs(1), n).ok().unwrap();
    assert!(run(&mut c, vote(Vote::new(5, 1))).is_empty());
    c.engine.candidate = Some(Candidate { vote: Vote::new(5, 1), starting_time: secs(0) });
    assert!(run(&mut c, vote(Vote::new(4, 1))).is_empty());
    let a = run(&mut c, vote(Vote::new(5, 1)));
    assert!(matches!(&a[0], CoreAction::HandleVoteResponse { target: 2, resp: r } if *r == resp));
    assert!(run(&mut c, pre(Vote::new(5, 1))).is_empty());
    c.engine.pre_candidate = c.engine.candidate;
    let a = run(&mut c, pre(Vote::new(5, 1)));
    assert!(matches!(&a[0], CoreAction::HandlePreVoteResponse { target: 2, .. }));

    let higher = |leader_vote| Notification::HigherVote {
        target: 2,
        higher: Vote::new(9, 2),
        leader_vote,
    };
    assert!(run(&mut c, higher(Vote::new_committed(3, 1))).is_empty());
    let mut l = leading();
    assert!(run(&mut l, higher(Vote::new_committed(2, 1))).is_empty());
    let a = run(&mut l, higher(Vote::new_committed(3, 1)));
    assert!(matches!(a[0], CoreAction::UpdateVote { higher } if higher == Vote::new(9, 2)));
    assert!(does_vote_match(&Vote::new(3, 1), &Some(Vote::new_committed(3, 1))));
    assert!(!does_vote_match(&Vote::new(3, 1), &None));
}

#[test]
fn notifications_are_handled() {
    let mut c = leading();
    c.replications.insert(2, ReplicationHandle { stream_id: 7, transmitting: true });
    let mut run = |c: &mut Core, n| c.handle_notification(secs(1), n).ok().unwrap();
    let progress = |inflight_id| Notification::ReplicationProgress {
        stream_id: 7,
        target: 2,
        result: ReplicationResult::Matching(Some(log_id(3, 1, 4))),
        inflight_id,
    };
    let a = run(&mut c, progress(None));
    assert!(matches!(a[0], CoreAction::UpdateProgress { target: 2, stream_id: 7, .. }));
    assert!(c.replications[&2].transmitting);
    run(&mut c, progress(Some(1)));
    assert_eq!(c.replications[&2], ReplicationHandle { stream_id: 7, transmitting: false });
    let a = run(&mut c, Notification::HeartbeatProgress {
        stream_id: 7,
        sending_time: secs(5),
        target: 2,
    });
    assert!(matches!(a[0], CoreAction::UpdateLeaderClock { stream_id: 7, target: 2, .. }));

    let mine = IOId::Log { committed_vote: Vote::new_committed(3, 1), log_id: Some(log_id(3, 1, 4)) };
    let a = run(&mut c, Notification::LocalIO { io_id: mine });
    assert!(matches!(a[0], CoreAction::FlushLog { io_id } if io_id == mine));
    assert!(matches!(a[1], CoreAction::UpdateLocalProgress { log_id: Some(l) }
        if l == log_id(3, 1, 4)));
    let other = IOId::Log { committed_vote: Vote::new_committed(2, 2), log_id: None };
    assert_eq!(run(&mut c, Notification::LocalIO { io_id: other }).len(), 1);

    let last = log_id(3, 1, 9);
    let a = run(&mut c, Notification::StateMachine {
        result: Ok(SmResponse::Apply(ApplyResult { since: 1, end: 10, last_applied: last })),
    });
    assert!(matches!(a[0], CoreAction::FlushApplied { log_id: l } if l == last));
    let meta = || SnapshotMeta {
        last_log_id: Some(last),
        last_membership: StoredMembership::new(None, membership(&[1])),
    };
    let a = run(&mut c, Notification::StateMachine {
        result: Ok(SmResponse::InstallSnapshot {
            committed_vote: Vote::new_committed(3, 2),
            log_id: Some(last),
            meta: Some(meta()),
        }),
    });
    assert_eq!(a.len(), 3);
    assert!(matches!(a[0], CoreAction::FlushLog { .. }));
    assert!(matches!(a[1], CoreAction::FlushApplied { log_id: l } if l == last));
    assert!(matches!(a[2], CoreAction::FlushSnapshot { log_id: l } if l == last));
    let a = run(&mut c, Notification::StateMachine {
        result: Ok(SmResponse::BuildSnapshotDone(Some(meta()))),
    });
    assert!(matches!(&a[0], CoreAction::SnapshotBuilt { meta: Some(_) }));
    let a = run(&mut c, Notification::PendingReadDeadlineReached);
    assert!(matches!(a[0], CoreAction::SetReadDeadline { deadline: None }));
    let a = run(&mut c, Notification::Tick { i: 3 });
    assert!(matches!(a[0], CoreAction::TickHeartbeat { .. }));

    let error = || StorageError::<Cfg>::write_vote(MessageError::error("full"));
    for n in [
        Notification::StorageError { error: error() },
        Notification::StateMachine { result: Err(error()) },
    ] {
        match c.handle_notification(secs(1), n) {
            Err(Fatal::StorageError(e)) => {
                assert_eq!((e.subject, e.verb), (ErrorSubject::Vote, ErrorVerb::Write));
            },
            _ => panic!("the node goes on"),
        }
    }

    let mut follower = following(Vote::new_committed(4, 2), &[1, 2]);
    assert!(run(&mut follower, progress(None)).is_empty());
}

#[test]
fn the_loop_stops_when_it_is_told_to() {
    let mut c = leading();
    let mut stopped = |e| matches!(c.runtime_loop(secs(1), e), Err(Fatal::Stopped));
    assert!(stopped(LoopEvent::Shutdown));
    assert!(stopped(LoopEvent::Notification(None)));
    assert!(stopped(LoopEvent::InstallSnapshot(None)));
    assert!(stopped(LoopEvent::Api(false)));
    assert!(c.runtime_loop(secs(1), LoopEvent::Api(true)).ok().unwrap().is_empty());
    let req = InstallFullSnapshotRequest {
        vote: Vote::new_committed(4, 2),
        snapshot: Snapshot {
            meta: SnapshotMeta {
                last_log_id: None,
                last_membership: StoredMembership::new(None, membership(&[1])),
            },
            snapshot: vec![1u8],
        },
        tx: 3,
    };
    let a = c.runtime_loop(secs(1), LoopEvent::InstallSnapshot(Some(req))).ok().unwrap();
    assert!(matches!(&a[0], CoreAction::InstallSnapshot { tx: 3, .. }));
    let a = c.runtime_loop(secs(1), LoopEvent::Notification(Some(Notification::Tick { i: 1 })));
    assert_eq!(a.ok().unwrap().len(), 1);
}

#[test]
fn shutting_down_comes_first() {
    let all = ReadyChannels { shutdown: true, notification: true, install_snapshot: true, api: true };
    assert_eq!(select_channel(&all), Some(Channel::Shutdown));
    let all = ReadyChannels { shutdown: false, ..all };
    assert_eq!(select_channel(&all), Some(Channel::Notification));
    let all = ReadyChannels { notification: false, ..all };
    assert_eq!(select_channel(&all), Some(Channel::InstallSnapshot));
    let all = ReadyChannels { install_snapshot: false, ..all };
    assert_eq!(select_channel(&all), Some(Channel::Api));
    assert_eq!(select_channel(&ReadyChannels { api: false, ..all }), None);
}

#[test]
fn rounds_are_bounded() {
    assert_eq!(rebalance(5, 5, 7, 7), Rebalance::IncreaseNotification);
    assert_eq!(rebalance(5, 5, 6, 7), Rebalance::IncreaseRaftMsg);
    assert_eq!(rebalance(4, 5, 6, 7), Rebalance::Keep);

    let mut b = MessageBatch::new(3);
    assert!(b.wants_more());
    assert!(!b.process_raft_msg(63));
    assert!(b.process_raft_msg(64));
    assert!(!b.process_raft_msg(127));
    assert!(!b.wants_more());

    let mut n = NotificationBatch::new(20);
    let runs: Vec<bool> = (0..20).map(|_| n.process_notification()).collect();
    assert_eq!(runs.iter().filter(|r| **r).count(), 1);
    assert!(runs[15]);
    assert!(!n.wants_more());
    assert!(n.flush_at_end());
    assert!(!NotificationBatch::new(1).flush_at_end());

    let mut step = LoopStep::FlushMetrics;
    for _ in 0..8 {
        step = step.next();
    }
    assert_eq!(step, LoopStep::FlushMetrics);
    assert_eq!(LoopStep::FlushMetrics.next(), LoopStep::HandleEvent);
    assert!(run_engine_commands(CommandResult::Executed));
    assert!(run_engine_commands(CommandResult::SetAside));
    assert!(!run_engine_commands(CommandResult::PutBack));
    assert!(!run_engine_commands(CommandResult::NoCommand));
}

#[test]
fn answers_wait_for_their_condition() {
    let mut st = state(Vote::new(5, 1), &[1]);
    let io_id = IOId::new(&Vote::new(5, 1));
    let flushed = Condition::IOFlushed { io_id };
    let applied = Condition::Applied { log_id: log_id(3, 1, 4) };
    let snapshot = Condition::Snapshot { log_id: log_id(3, 1, 4) };
    assert!(!flushed.is_met(&st) && !applied.is_met(&st) && !snapshot.is_met(&st));
    let mut pending = vec![
        PendingRespond { condition: flushed, respond: 1 },
        PendingRespond { condition: applied, respond: 2 },
        PendingRespond { condition: snapshot, respond: 3 },
    ];
    st.log_progress.flushed = Some(io_id);
    st.io_snapshot = Some(log_id(3, 1, 5));
    let sent: Vec<u64> =
        send_satisfied_responds(&st, &mut pending).iter().map(|p| p.respond).collect();
    assert_eq!(sent, vec![1, 3]);
    st.io_applied = Some(log_id(3, 1, 3));
    assert!(send_satisfied_responds(&st, &mut pending).is_empty());
    st.io_applied = Some(log_id(3, 1, 4));
    assert_eq!(send_satisfied_responds(&st, &mut pending).len(), 1);
    assert!(pending.is_empty());
}

fn run(c: &mut Core, cmd: Command<Cfg>) -> Actions {
    match c.run_command(secs(9), cmd, None) {
        CommandOutcome::Run(actions) => actions,
        CommandOutcome::Postponed(_) => panic!("postponed"),
    }
}

#[test]
fn commands_are_run() {
    let mut c = leading();
    let io_id = IOId::new(&Vote::new(5, 1));
    let a = run(&mut c, Command::UpdateIOProgress { io_id });
    assert!(matches!(a[0], CoreAction::BroadcastAccepted { .. }));
    assert!(matches!(a[1], CoreAction::SubmitLog { .. }));
    assert!(matches!(a[2], CoreAction::Notify { notification: Notification::LocalIO { .. } }));

    c.metrics_recorder = Some(1);
    let entries = vec![
        Entry { log_id: log_id(3, 1, 5), payload: EntryPayload::Blank },
        Entry { log_id: log_id(3, 1, 6), payload: EntryPayload::Normal(1) },
    ];
    let a = run(&mut c, Command::AppendEntries {
        committed_vote: Vote::new_committed(3, 1),
        entries,
    });
    assert_eq!(a.len(), 4);
    assert!(matches!(a[0], CoreAction::Record { what: Recorded::AppendBatch(2), .. }));
    assert!(matches!(&a[3], CoreAction::AppendLog {
        entries,
        io_id: IOId::Log { log_id: Some(l), .. },
    } if entries.len() == 2 && *l == log_id(3, 1, 6)));

    let a = run(&mut c, Command::SaveVote { vote: Vote::new(5, 1) });
    assert_eq!(a.len(), 5);
    assert!(matches!(a[2], CoreAction::SaveVote { vote } if vote == Vote::new(5, 1)));
    assert!(matches!(&a[4], CoreAction::Notify {
        notification: Notification::VoteResponse { target: 1, resp, .. },
    } if resp.vote_granted));
    assert_eq!(run(&mut c, Command::SaveVote { vote: Vote::new_committed(5, 1) }).len(), 4);

    let upto = log_id(3, 1, 5);
    let a = run(&mut c, Command::PurgeLog { upto });
    assert!(matches!(a[0], CoreAction::PurgeLog { .. }));
    assert!(matches!(a[1], CoreAction::AfterPurge { upto: u } if u == upto));
    let a = run(&mut c, Command::TruncateLog { after: Some(upto) });
    assert!(matches!(a[0], CoreAction::TruncateLog { .. }));
    assert!(matches!(a[1], CoreAction::AfterTruncate { after: Some(u) } if u == upto));
    let vote_req = VoteRequest::new(Vote::new(5, 1), None);
    let a = run(&mut c, Command::SendVote { vote_req });
    assert!(matches!(a[0], CoreAction::BroadcastVote { pre_vote: false, .. }));
    let a = run(&mut c, Command::SendPreVote { vote_req });
    assert!(matches!(a[0], CoreAction::BroadcastVote { pre_vote: true, .. }));
    let a = run(&mut c, Command::ReplicateCommitted { committed: upto });
    assert!(matches!(a[0], CoreAction::BroadcastCommitted { log_id: l } if l == upto));
    let a = run(&mut c, Command::SaveCommittedAndApply {
        already_applied: Some(log_id(3, 1, 3)),
        upto,
    });
    assert!(matches!(a[0], CoreAction::SubmitApplied { .. }));
    assert!(matches!(a[1], CoreAction::SaveCommitted { committed } if committed == upto));
    assert!(matches!(a[2], CoreAction::ApplyFrom { first_index: 4, last } if last == upto));
    let a = run(&mut c, Command::SaveCommittedAndApply { already_applied: None, upto });
    assert!(matches!(a[2], CoreAction::ApplyFrom { first_index: 0, .. }));
    let a = run(&mut c, Command::BroadcastTransferLeader {
        req: TransferLeaderRequest::new(Vote::new_committed(3, 1), 2, None),
    });
    assert!(matches!(a[0], CoreAction::BroadcastTransferLeader { .. }));
    let a = run(&mut c, Command::StateMachine {
        command: SmCommand {
            command: 6,
            log_progress: Some(io_id),
            apply_progress: None,
            snapshot_progress: Some(upto),
        },
    });
    assert_eq!(a.len(), 3);
    assert!(matches!(a[0], CoreAction::SubmitLog { .. }));
    assert!(matches!(a[1], CoreAction::SubmitSnapshot { log_id: l } if l == upto));
    assert!(matches!(a[2], CoreAction::SendToStateMachine { command: 6 }));
    let a = run(&mut c, Command::Respond { respond: 4 });
    assert!(matches!(a[0], CoreAction::SendRespond { respond: 4 }));
    c.pending_reads.push(read(1, 10, 20));
    let a = run(&mut c, Command::FailPendingReads);
    assert!(a.len() == 2 && matches!(a[1], CoreAction::SetReadDeadline { deadline: None }));
}

#[test]
fn a_command_waits_for_its_condition() {
    let mut c = leading();
    let condition = Some(Condition::Applied { log_id: log_id(3, 1, 4) });
    let cmd = Command::Respond { respond: 4 };
    let out = c.run_command(secs(1), cmd, condition);
    assert!(matches!(out, CommandOutcome::Postponed(Command::Respond { respond: 4 })));
    c.engine.state.io_applied = Some(log_id(3, 1, 4));
    let out = c.run_command(secs(1), Command::Respond { respond: 4 }, condition);
    assert!(matches!(out, CommandOutcome::Run(a) if a.len() == 1));
}

#[test]
fn replications_follow_the_targets() {
    let mut c = leading();
    let leader_vote = Vote::new_committed(3, 1);
    let targets = |ids: &[u64], stream: u64| -> Vec<TargetProgress> {
        ids.iter().map(|id| TargetProgress { target: *id, stream_id: stream + id }).collect()
    };
    let rebuild = |targets, close_old_streams| Command::RebuildReplicationStreams {
        leader_vote,
        targets,
        close_old_streams,
    };
    let a = run(&mut c, rebuild(targets(&[2, 3], 10), false));
    assert_eq!(a.len(), 3);
    assert!(matches!(a[0], CoreAction::SpawnHeartbeatWorkers { close_old: false, .. }));
    assert!(matches!(a[1], CoreAction::SpawnReplication { target: 2, stream_id: 12, .. }));
    assert!(matches!(a[2], CoreAction::SpawnReplication { target: 3, stream_id: 13, .. }));

    let a = run(&mut c, rebuild(targets(&[3, 4], 20), false));
    assert_eq!(a.len(), 3);
    assert!(matches!(a[1], CoreAction::SpawnReplication { target: 4, stream_id: 24, .. }));
    assert!(matches!(a[2], CoreAction::CloseReplication { target: 2 }));
    assert_eq!(c.replications[&3].stream_id, 13);

    let a = run(&mut c, rebuild(targets(&[3], 30), true));
    assert_eq!(a.len(), 4);
    assert!(matches!(a[1], CoreAction::CloseReplication { target: 3 }));
    assert!(matches!(a[2], CoreAction::SpawnReplication { target: 3, stream_id: 33, .. }));
    assert!(matches!(a[3], CoreAction::CloseReplication { target: 4 }));

    let a = run(&mut c, Command::Replicate { req: 8, target: 3 });
    assert!(matches!(a[0], CoreAction::Replicate { target: 3, request: 8 }));
    let a = run(&mut c, Command::ReplicateSnapshot { leader_vote, target: 3, inflight_id: 5 });
    assert!(matches!(a[0], CoreAction::TransmitSnapshot {
        target: 3,
        stream_id: 33,
        inflight_id: 5,
        ..
    }));
    assert!(c.replications[&3].transmitting);
    let a = run(&mut c, Command::CloseReplicationStreams);
    assert!(a.len() == 2 && matches!(a[0], CoreAction::CloseHeartbeatWorkers));
    assert!(matches!(a[1], CoreAction::CloseReplication { target: 3 }));
    assert!(c.replications.is_empty());
}

#[test]
fn heartbeats_go_to_the_other_nodes_of_the_session() {
    let mut c = leading();
    c.engine.state.cluster_committed = Some(log_id(1, 0, 1));
    let session_id = ReplicationSessionId {
        leader_vote: Vote::new_committed(3, 1),
        membership_log_id: Some(log_id(1, 0, 1)),
    };
    let a = run(&mut c, Command::BroadcastHeartbeat { session_id, bypass_min_interval: false });
    assert_eq!(a.len(), 1);
    assert!(matches!(&a[0], CoreAction::SendHeartbeatTo { target: 2, event }
        if event.time == secs(9)
            && event.matching == Some(log_id(1, 0, 1))
            && event.cluster_committed == Some(log_id(1, 0, 1))));
    let a = run(&mut c, Command::BroadcastHeartbeat { session_id, bypass_min_interval: true });
    assert!(a.len() == 2 && matches!(&a[1], CoreAction::SendHeartbeatTo { target: 3, .. }));
    let stale = ReplicationSessionId { membership_log_id: None, ..session_id };
    let a = run(&mut c, Command::BroadcastHeartbeat {
        session_id: stale,
        bypass_min_interval: true,
    });
    assert!(a.is_empty());
}

#[test]
fn votes_are_asked_of_the_other_voters() {
    let mut c = following(Vote::new(5, 1), &[3, 1, 2]);
    let req = VoteRequest::new(Vote::new_committed(5, 1), None);
    let round = c.spawn_parallel_vote_requests(&req, VoteRequestKind::Vote);
    assert_eq!(round.targets.to_vec(), vec![2, 3]);
    assert_eq!(round.ttl, Duration::from_millis(150));
    let resp = VoteResponse::new(Vote::new(5, 1), None, true);
    assert!(matches!(round.on_reply::<Cfg>(2, VoteReply::Answer(resp)),
        Some(Notification::VoteResponse { target: 2, candidate_vote, .. })
            if candidate_vote == Vote::new(5, 1)));
    assert!(round.on_reply::<Cfg>(2, VoteReply::Failed).is_none());
    assert!(round.on_reply::<Cfg>(2, VoteReply::TimedOut).is_none());
    let round = c.spawn_parallel_vote_requests(&req, VoteRequestKind::PreVote);
    assert!(matches!(round.on_reply::<Cfg>(3, VoteReply::Answer(resp)),
        Some(Notification::PreVoteResponse { target: 3, .. })));
    assert_eq!(VoteRequestKind::Vote.as_str(), "vote");
    assert_eq!(VoteRequestKind::PreVote.as_str(), "pre-vote");
    let t = c.vote_timeout(3);
    assert_eq!((t.action, t.id, t.target), (RPCTypes::Vote, 1, 3));
    assert_eq!(t.timeout, Duration::from_millis(150));
    let req = TransferLeaderRequest::new(Vote::new_committed(5, 1), 2, None);
    assert_eq!(c.broadcast_transfer_leader(req).targets.to_vec(), vec![2, 3]);
    // More voters than a small list holds in place.
    let many: Vec<u64> = (1..=40).collect();
    c.engine.state.membership_state.effective = stored(None, &many);
    assert_eq!(c.broadcast_to_voters().to_vec(), (2..=40).collect::<Vec<u64>>());
}

#[test]
fn snapshots_are_recorded_once_queued() {
    let mut c = leading();
    let at = Some(log_id(3, 1, 4));
    c.snapshot_triggered(at, false);
    assert_eq!(c.snapshot_tried_at, None);
    c.snapshot_triggered(at, true);
    assert_eq!(c.snapshot_tried_at, at);
    c.snapshot_triggered(None, true);
    assert_eq!(c.snapshot_tried_at, at);
}

#[test]
fn routine_actions_follow_every_round() {
    let mut c = leading();
    let io_id = IOId::new(&Vote::new_committed(3, 1));
    c.engine.state.log_progress.submitted = Some(io_id);
    let a = c.trigger_routine_actions(Some(log_id(3, 1, 4)), secs(1));
    assert_eq!(a.len(), 4);
    assert!(matches!(a[0], CoreAction::TriggerSnapshot { at: Some(l) } if l == log_id(3, 1, 4)));
    assert!(matches!(a[1], CoreAction::InitiateReplication));
    assert!(matches!(a[2], CoreAction::BroadcastSubmitted { io_id: i } if i == io_id));
    assert!(matches!(a[3], CoreAction::SetReadDeadline { deadline: None }));
    let mut f = following(Vote::new_committed(4, 9), &[1, 2]);
    assert_eq!(f.trigger_routine_actions(None, secs(1)).len(), 1);
    assert_eq!(f.current_leader(), Some(9));
    assert_eq!(f.get_leader_node(f.current_leader()), None);
    assert_eq!(f.get_leader_node(Some(2)), Some(20));
    assert_eq!(f.last_quorum_acked_time(), None);
    f.engine.state.vote.vote = Vote::new(4, 9);
    assert_eq!(f.current_leader(), None);
    c.engine.leader.as_mut().unwrap().last_quorum_acked = Some(secs(4));
    assert_eq!(c.last_quorum_acked_time(), Some(secs(4)));
}

#[test]
fn store_failures_tell_what_was_written() {
    let fail = || Err(std::io::Error::other("disk full"));
    let all = [
        (StoreWrite::AppendLog, ErrorSubject::Logs),
        (StoreWrite::SaveVote, ErrorSubject::Vote),
        (StoreWrite::PurgeLog, ErrorSubject::Logs),
        (StoreWrite::TruncateLog, ErrorSubject::Logs),
        (StoreWrite::SaveCommitted, ErrorSubject::Store),
    ];
    for (write, subject) in all {
        assert!(write.outcome::<Cfg>(Ok(())).is_ok());
        let e = write.outcome::<Cfg>(fail()).err().unwrap();
        assert_eq!((e.subject, e.verb), (subject, ErrorVerb::Write));
        assert_eq!(e.source.message, "disk full");
    }
    let e = state_machine_gone::<Cfg>();
    assert_eq!(e.subject, ErrorSubject::StateMachine);
    assert_eq!(e.source.message, "cannot send to sm::Worker");
    let e = apply_not_sent::<Cfg>(log_id(1, 2, 3), "gone");
    assert_eq!(e.subject, ErrorSubject::Apply(log_id(1, 2, 3)));
    assert_eq!(e.source.message, "gone");
}
