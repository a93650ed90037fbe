use std::io::ErrorKind;

use zenoh_raft::errors::{
    Elapsed, ErrorSubject, ErrorVerb, ForwardToLeader, HigherVote, LinearizableReadError,
    MessageError, NodeNotFound, Operation, QuorumNotEnough, StorageError, StorageIOResult,
    ToStorageResult,
};
use zenoh_raft::log_id::{opt_log_id_text, LogIndexOptionExt};
use zenoh_raft::membership::{ChangeMembers, Membership};
use zenoh_raft::message::{
    stream_append, ChangeMembershipRequest, ClientWriteResponse, LinearizerOption,
    StreamAppendError, StreamStep, VoteRequest, VoteResponse,
};
use zenoh_raft::entry::EntryPayload;
use zenoh_raft::raft_core::notification::{ApplyResult, Notification, NotificationName};
use zenoh_raft::raft_core::raft_msg::{ExternalCommand, RaftMsg};
use zenoh_raft::raft_core::replication::DisplayVecProgress;
use zenoh_raft::raft_core::state::Precondition;
use zenoh_raft::storage::{Snapshot, SnapshotMeta, SnapshotSignature, StoredMembership};
use zenoh_raft::summary::MessageSummary;
use zenoh_raft::time::{Duration, Instant};
use zenoh_raft::type_config::{log_id, UTConfig};
use zenoh_raft::vote::{IOId, Vote};

#[test]
fn test_display() {
    let lid = log_id(1, 2, 3);
    assert_eq!("T1-N2.3", lid.to_string());
    assert_eq!("T1-N2.3", lid.summary());
    assert_eq!("Some(T1-N2.3)", Some(&lid).summary());
    assert_eq!("Some(T1-N2.3)", Some(lid).summary());

    let slc = vec![lid, lid];
    assert_eq!("T1-N2.3,T1-N2.3", slc.as_slice().summary());

    let slc = vec![&lid, &lid];
    assert_eq!("T1-N2.3,T1-N2.3", slc.as_slice().summary());
}

#[test]
fn what_can_be_written_has_a_summary() {
    let a: &[i32] = &[1, 2, 3, 4, 5];
    let b: &[i32] = &[1, 2, 3, 4, 5, 6];
    let c: &[i32] = &[];
    assert_eq!(a.summary(), "1,2,3,4,5");
    assert_eq!(b.summary(), "1 ... 6");
    assert_eq!(c.summary(), "{}");
    assert_eq!(i128::MIN.summary(), i128::MIN.to_string());
    assert_eq!(u128::MAX.summary(), u128::MAX.to_string());
    assert_eq!((-7i8).summary(), "-7");
    assert_eq!(u64::MAX.summary(), "18446744073709551615");
    assert_eq!((0usize.summary(), true.summary()), ("0".to_string(), "true".to_string()));
    assert_eq!(Some("x".to_string()).summary(), "Some(x)");
    assert_eq!(vec!["x", "y"].as_slice().summary(), "x,y");
    let e = StorageError::<UTConfig>::read_vote(MessageError::error("lost"));
    assert_eq!(e.summary(), "when Read Vote: lost");
    assert_eq!(ErrorVerb::Write.summary(), ErrorVerb::Write.to_string());
    assert_eq!(Elapsed.summary(), "deadline has elapsed");
}

#[test]
fn summaries_are_shortened() {
    let lid = log_id(1, 2, 3);
    assert_eq!(None::<zenoh_raft::log_id::LogId>.summary(), "None");
    assert_eq!(Vec::<zenoh_raft::log_id::LogId>::new().as_slice().summary(), "{}");
    let five = vec![log_id(1, 1, 1); 5];
    assert_eq!(
        five.as_slice().summary(),
        "T1-N1.1,T1-N1.1,T1-N1.1,T1-N1.1,T1-N1.1"
    );
    let seven: Vec<_> = (0..7).map(|i| log_id(1, 2, i)).collect();
    assert_eq!(seven.as_slice().summary(), "T1-N2.0 ... T1-N2.6");
    assert_eq!(lid.leader_id.summary(), "T1-N2");
    assert_eq!(Vote::new(1, 2).summary(), Vote::new(1, 2).to_string());
    let req = VoteRequest::new(Vote::new(1, 2), None);
    assert_eq!(req.summary(), req.to_string());
    let resp = VoteResponse::new(Vote::new(1, 2), None, true);
    assert_eq!(resp.summary(), resp.to_string());
    let e = NodeNotFound::new(3, Operation { description: "sending".to_string() });
    assert_eq!(e.summary(), "Node 3 not found when: (sending)");
}

#[test]
fn test_append_membership_display() {
    let precondition =
        Precondition::LastMembershipLogId { last_membership_log_id: Some(log_id(1, 2, 3)) };
    let msg = RaftMsg::<UTConfig>::AppendMembership {
        payload: EntryPayload::Blank,
        preconditions: vec![precondition],
        tx: 0,
    };
    assert_eq!(
        "AppendMembership: preconditions: [LastMembershipLogId(T1-N2.3)]",
        msg.to_string_with("")
    );
}

#[test]
fn messages_have_a_text() {
    let rpc = VoteRequest::new_pre_vote(Vote::new(1, 2), Some(log_id(1, 2, 3)));
    let rpc_text = "{vote:<T1-N2:->, last_log:T1-N2.3, leadership_transfer:false, is_pre_vote:true}";
    assert_eq!(rpc.to_string(), rpc_text);
    let text = |m: RaftMsg<UTConfig>| m.to_string_with("D");
    assert_eq!(text(RaftMsg::RequestVote { rpc, tx: 0 }), format!("RequestVote: {}", rpc_text));
    assert_eq!(
        text(RaftMsg::RequestPreVote { rpc, tx: 0 }),
        format!("RequestPreVote: {}", rpc_text)
    );
    assert_eq!(text(RaftMsg::WithRaftState { req: 0 }), "WithRaftState");
    assert_eq!(
        text(RaftMsg::HandleTransferLeader {
            from: Vote::new_committed(1, 2),
            to: 3,
            last_log_id: None,
        }),
        "TransferLeader: from_leader: vote=<T1-N2:Q>, to: 3, last_log_id: None"
    );
    assert_eq!(
        text(RaftMsg::ExternalCommand { cmd: ExternalCommand::Snapshot }),
        "ExternalCommand: D"
    );
    let missing = Precondition::LastMembershipLogId { last_membership_log_id: None };
    assert_eq!(missing.to_string(), "LastMembershipLogId(None)");
    let many = RaftMsg::<UTConfig>::AppendMembership {
        payload: EntryPayload::Blank,
        preconditions: vec![missing; 7],
        tx: 0,
    };
    let m = "LastMembershipLogId(None)";
    assert_eq!(
        many.to_string_with(""),
        format!("AppendMembership: preconditions: [{m},{m},{m},{m},..,{m}]")
    );
    assert_eq!(
        VoteResponse::new(Vote::new(1, 2), Some(log_id(1, 2, 3)), true).to_string(),
        "{<T1-N2:->, last_log:Some(\"T1-N2.3\")}"
    );
    assert_eq!(
        VoteResponse::new(Vote::new(1, 2), None, true).to_string(),
        "{<T1-N2:->, last_log:None}"
    );
    let r = ApplyResult { since: 3, end: 7, last_applied: log_id(1, 2, 6) };
    assert_eq!(r.to_string(), "ApplyResult([3, 7), last_applied=T1-N2.6)");
    assert_eq!(
        DisplayVecProgress { entries: vec!["a".to_string(), "b".to_string()] }.to_string(),
        "{a, b}"
    );
    assert_eq!(
        HigherVote { higher: Vote::new(3, 1), sender_vote: Vote::new(2, 1) }.to_string(),
        "seen a higher vote: <T3-N1:-> GT mine: <T2-N1:->"
    );
    assert_eq!(Elapsed.to_string(), "deadline has elapsed");
    assert_eq!(opt_log_id_text(&None), "None");
}

#[test]
fn debug_texts_agree_with_the_derived_ones() {
    let a = log_id(1, 20, 300);
    assert_eq!(a.debug_text(), format!("{:?}", a));
    for s in [
        SnapshotSignature { last_log_id: None, last_membership_log_id: None },
        SnapshotSignature { last_log_id: Some(a), last_membership_log_id: Some(Box::new(a)) },
    ] {
        assert_eq!(s.to_string(), format!("{:?}", s));
        let subject = ErrorSubject::Snapshot(Some(s));
        assert_eq!(subject.to_string(), format!("{:?}", subject));
    }
    for subject in [
        ErrorSubject::Store,
        ErrorSubject::Vote,
        ErrorSubject::Logs,
        ErrorSubject::Log(a),
        ErrorSubject::LogIndex(77),
        ErrorSubject::Apply(a),
        ErrorSubject::StateMachine,
        ErrorSubject::Snapshot(None),
    ] {
        assert_eq!(subject.to_string(), format!("{:?}", subject));
    }
    for verb in [ErrorVerb::Read, ErrorVerb::Write, ErrorVerb::Seek, ErrorVerb::Delete] {
        assert_eq!(verb.to_string(), format!("{:?}", verb));
    }
}

#[test]
fn test_storage_error_to_io_error() {
    let storage_err =
        StorageError::<UTConfig>::write_log_entry(log_id(1, 2, 3), MessageError::error("disk full"));
    let io_err: std::io::Error = storage_err.into();

    assert_eq!(io_err.kind(), ErrorKind::Other);
    assert!(io_err.to_string().contains("Write"));
    assert!(io_err.to_string().contains("disk full"));

    let storage_err =
        StorageError::<UTConfig>::read_vote(MessageError::error("permission denied"));
    let io_err: std::io::Error = storage_err.into();

    assert_eq!(io_err.kind(), ErrorKind::Other);
    assert!(io_err.to_string().contains("Read"));
    assert!(io_err.to_string().contains("Vote"));
    assert!(io_err.to_string().contains("permission denied"));
    assert_eq!(io_err.to_string(), "when Read Vote: permission denied");
}

#[test]
fn storage_errors_tell_what_failed() {
    type E = StorageError<UTConfig>;
    let m = || MessageError::error("x");
    let id = log_id(1, 2, 3);
    let sig = || Some(SnapshotSignature { last_log_id: Some(id), last_membership_log_id: None });
    let all = [
        (E::write_log_entry(id, m()), ErrorVerb::Write, ErrorSubject::Log(id)),
        (E::read_log_at_index(5, m()), ErrorVerb::Read, ErrorSubject::LogIndex(5)),
        (E::read_log_entry(id, m()), ErrorVerb::Read, ErrorSubject::Log(id)),
        (E::write_logs(m()), ErrorVerb::Write, ErrorSubject::Logs),
        (E::read_logs(m()), ErrorVerb::Read, ErrorSubject::Logs),
        (E::write_vote(m()), ErrorVerb::Write, ErrorSubject::Vote),
        (E::read_vote(m()), ErrorVerb::Read, ErrorSubject::Vote),
        (E::apply(id, m()), ErrorVerb::Write, ErrorSubject::Apply(id)),
        (E::write_state_machine(m()), ErrorVerb::Write, ErrorSubject::StateMachine),
        (E::read_state_machine(m()), ErrorVerb::Read, ErrorSubject::StateMachine),
        (E::write_snapshot(sig(), m()), ErrorVerb::Write, ErrorSubject::Snapshot(sig())),
        (E::read_snapshot(None, m()), ErrorVerb::Read, ErrorSubject::Snapshot(None)),
        (E::read(m()), ErrorVerb::Read, ErrorSubject::Store),
        (E::write(m()), ErrorVerb::Write, ErrorSubject::Store),
    ];
    for (e, verb, subject) in all {
        assert_eq!((e.verb, &e.subject), (verb, &subject));
        assert_eq!(e.source.message, "x");
    }
    let e = E::from_io_error(
        ErrorSubject::Unspecified,
        ErrorVerb::Seek,
        std::io::Error::other("bad disk"),
    );
    assert_eq!(e.to_string(), "when Seek None: bad disk");
}

#[test]
fn io_errors_carry_storage_errors() {
    let e = StorageError::<UTConfig>::read_vote(MessageError::error("permission denied"));
    let io_err: std::io::Error = e.into();
    let e = StorageError::<UTConfig>::from_io_error(ErrorSubject::Store, ErrorVerb::Read, io_err);
    assert_eq!(e.source.message, "when Read Vote: permission denied");
    let got = ToStorageResult::<UTConfig, u64>::sto_res(
        Err(std::io::Error::from(ErrorKind::NotFound)),
        || (ErrorSubject::Vote, ErrorVerb::Read),
    );
    let same = StorageError::<UTConfig>::from_io_error(
        ErrorSubject::Vote,
        ErrorVerb::Read,
        std::io::Error::from(ErrorKind::NotFound),
    );
    assert_eq!(got.err().unwrap().to_string(), same.to_string());
}

#[test]
fn results_become_storage_results() {
    type R = Result<u64, std::io::Error>;
    let ok = || -> R { Ok(4) };
    let bad = || -> R { Err(std::io::Error::other("io")) };
    let id = log_id(1, 2, 3);
    fn check(r: Result<u64, StorageError<UTConfig>>, verb: ErrorVerb, subject: ErrorSubject) {
        let e = r.err().unwrap();
        assert_eq!((e.verb, e.subject, e.source.message.as_str()), (verb, subject, "io"));
    }
    let (r, w) = (ErrorVerb::Read, ErrorVerb::Write);
    assert_eq!(StorageIOResult::<UTConfig, u64>::sto_write_logs(ok()).ok(), Some(4));
    check(bad().sto_write_logs(), w, ErrorSubject::Logs);
    check(bad().sto_read_logs(), r, ErrorSubject::Logs);
    check(bad().sto_write_vote(), w, ErrorSubject::Vote);
    check(bad().sto_read_vote(), r, ErrorSubject::Vote);
    check(bad().sto_apply(id), w, ErrorSubject::Apply(id));
    check(bad().sto_read_sm(), r, ErrorSubject::StateMachine);
    check(bad().sto_write_snapshot(None), w, ErrorSubject::Snapshot(None));
    check(bad().sto_read_snapshot(None), r, ErrorSubject::Snapshot(None));
    check(bad().sto_write(), w, ErrorSubject::Store);
    let at = || (ErrorSubject::LogIndex(3), ErrorVerb::Delete);
    check(bad().sto_res(at), ErrorVerb::Delete, ErrorSubject::LogIndex(3));
    assert_eq!(ToStorageResult::<UTConfig, u64>::sto_res(ok(), at).ok(), Some(4));
}

#[test]
fn snapshots_have_a_signature_and_a_text() {
    let meta = SnapshotMeta {
        last_log_id: Some(log_id(1, 2, 3)),
        last_membership: StoredMembership::new(
            Some(log_id(4, 5, 6)),
            Membership::<()>::new_with_defaults(vec![[1, 2].into_iter().collect()], vec![]),
        ),
    };
    assert_eq!(
        meta.signature(),
        SnapshotSignature {
            last_log_id: Some(log_id(1, 2, 3)),
            last_membership_log_id: Some(Box::new(log_id(4, 5, 6))),
        }
    );
    assert_eq!(meta.last_log_id(), Some(&log_id(1, 2, 3)));
    assert_eq!(meta.to_string_with("M"), "{last_log:T1-N2.3, last_membership: M}");
    let empty = SnapshotMeta::<()>::default();
    assert_eq!(empty.last_log_id(), None);
    assert_eq!(
        empty.signature(),
        SnapshotSignature { last_log_id: None, last_membership_log_id: None }
    );
    assert!(meta.duplicate().last_membership.same(&meta.last_membership));
    assert!(!empty.last_membership.same(&meta.last_membership));
    let s = Snapshot { meta, snapshot: vec![1u8] };
    assert_eq!(s.to_string_with("M"), "Snapshot{meta: {last_log:T1-N2.3, last_membership: M}}");
}

#[test]
fn records_keep_a_reserved_slot() {
    let meta = || SnapshotMeta {
        last_log_id: Some(log_id(1, 2, 3)),
        last_membership: StoredMembership::new(
            Some(log_id(4, 5, 6)),
            Membership::<()>::new_with_defaults(vec![[1, 2].into_iter().collect()], vec![]),
        ),
    };
    let mut record = meta().into_record();
    assert_eq!(record.snapshot_id, "");
    record.snapshot_id = "1-2-3-4".to_string();
    let back = SnapshotMeta::from_record(record);
    assert_eq!(back.last_log_id, meta().last_log_id);
    assert!(back.last_membership.same(&meta().last_membership));
    let signature = meta().signature();
    let mut record = signature.clone().into_record();
    assert_eq!(record.snapshot_id, "");
    record.snapshot_id = "x".to_string();
    assert_eq!(SnapshotSignature::from_record(record), signature);
}

#[test]
fn votes_and_log_ids_are_ordered() {
    let (a, b) = (Vote::new(1, 2), Vote::new_committed(1, 2));
    assert!(b.is_greater_than(&a) && !a.is_greater_than(&b));
    assert!(Vote::new(1, 3).is_greater_than(&b));
    assert!(Vote::new(2, 0).is_greater_than(&Vote::new(1, 9)));
    assert!(!a.is_greater_than(&a));
    assert_eq!(a.to_committed(), b);
    assert_eq!(b.to_non_committed(), a);
    assert!(b.is_committed() && !a.is_committed());
    assert_eq!(Vote::new_with_default_term(5), Vote::new(0, 5));
    assert_eq!((a.to_string(), b.to_string()), ("<T1-N2:->".to_string(), "<T1-N2:Q>".to_string()));
    assert!(log_id(1, 2, 9).is_at_most(&log_id(2, 1, 0)));
    assert!(log_id(1, 2, 3).is_at_most(&log_id(1, 2, 3)));
    assert!(!log_id(1, 2, 4).is_at_most(&log_id(1, 2, 3)));
    assert!(zenoh_raft::log_id::opt_is_at_most(&None, &Some(log_id(0, 0, 0))));
    assert_eq!(IOId::new(&b).to_app_vote(), b);
    assert_eq!(None.next_index(), 0u64);
    assert_eq!(Some(4u64).next_index(), 5);
    assert_eq!(Some(4u64).prev_index(), Some(3));
    assert_eq!(Some(0u64).prev_index(), None);
}

#[test]
fn votes_are_granted_to_their_candidate() {
    let v = Vote::new(3, 1);
    let granted = VoteResponse::new(v, None, true);
    assert!(granted.is_granted_to(&v));
    assert!(!granted.is_granted_to(&Vote::new(3, 2)));
    assert!(!VoteResponse::new(v, None, false).is_granted_to(&v));
    let pre = VoteResponse::pre_vote_without_network(VoteRequest::new_pre_vote(v, None));
    assert!(pre.is_granted_to(&v) && pre.vote_granted);
}

#[test]
fn streams_end_with_the_first_failure() {
    assert_eq!(stream_append(&Some(Ok(None))), StreamStep::Continue);
    let conflict = StreamAppendError::Conflict(log_id(1, 2, 3));
    assert_eq!(stream_append(&Some(Err(conflict))), StreamStep::Finish);
    let higher = StreamAppendError::HigherVote(Vote::new(3, 1));
    assert_eq!(stream_append(&Some(Err(higher))), StreamStep::Finish);
    assert_eq!(stream_append(&None), StreamStep::Finish);
}

#[test]
fn writes_are_answered() {
    let r = ClientWriteResponse::<UTConfig> { log_id: log_id(1, 2, 3), data: (), membership: None };
    assert_eq!(*r.log_id(), log_id(1, 2, 3));
    assert_eq!(*r.response(), ());
    assert!(r.membership().is_none());
    assert_eq!(
        r.to_string_with("M"),
        "ClientWriteResponse{log_id:T1-N2.3, membership:None}"
    );
    let r = ClientWriteResponse::<UTConfig> { membership: Some(Membership::empty()), ..r };
    assert_eq!(r.to_string_with("M"), "ClientWriteResponse{log_id:T1-N2.3, membership:M}");
}

#[test]
fn change_requests_are_built() {
    let members = || ChangeMembers::RemoveVoters([1].into_iter().collect());
    let r = ChangeMembershipRequest::<UTConfig>::new(members(), true);
    assert!(r.retain_removed_as_learners && r.preconditions.is_empty() && r.payload.is_none());
    let p = Precondition::LastMembershipLogId { last_membership_log_id: None };
    let r = r
        .with_payload(EntryPayload::Normal(1), EntryPayload::Normal(2))
        .with_preconditions(vec![p]);
    let (_, retain, preconditions, payload) = r.into_parts();
    assert!(retain);
    assert_eq!(preconditions, vec![p]);
    assert!(matches!(payload, Some((EntryPayload::Normal(1), EntryPayload::Normal(2)))));
}

#[test]
fn read_options_fall_back_to_the_lease() {
    let lease = Duration::from_secs(2);
    let none = LinearizerOption {
        max_quorum_ack_age: None,
        wait_timeout: None,
        heartbeat_if_quorum_ack_stale: false,
    };
    assert_eq!(none.effective_max_quorum_ack_age(lease), lease);
    assert_eq!(none.effective_wait_timeout(lease), lease);
    let some = LinearizerOption {
        max_quorum_ack_age: Some(Duration::from_millis(1)),
        wait_timeout: Some(Duration::from_millis(3)),
        ..none
    };
    assert_eq!(some.effective_max_quorum_ack_age(lease), Duration::from_millis(1));
    assert_eq!(some.effective_wait_timeout(lease), Duration::from_millis(3));
}

#[test]
fn notification_names_are_dense() {
    let all = NotificationName::all();
    assert_eq!(all.len(), NotificationName::COUNT);
    for (i, name) in all.iter().enumerate() {
        assert_eq!(name.index(), i);
        assert!(!name.as_str().is_empty());
    }
    assert_eq!(NotificationName::LocalIO.as_str(), "LocalIO");
    let n = Notification::<UTConfig>::Tick { i: 1 };
    assert_eq!(n.name(), NotificationName::Tick);
    let n = Notification::<UTConfig>::PendingReadDeadlineReached;
    assert_eq!(n.name().index(), 9);
}

#[test]
fn read_errors_tell_where_to_forward() {
    let forward = ForwardToLeader::new(2, 20u64);
    let e: LinearizableReadError<u64> = forward.duplicate().into();
    assert_eq!(e.forward_to_leader(), Some(&forward));
    let e: LinearizableReadError<u64> =
        QuorumNotEnough { min_quorum_acked_at: Instant { nanos: 3 } }.into();
    assert_eq!(e.forward_to_leader(), None);
}
