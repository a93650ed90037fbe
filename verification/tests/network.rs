use std::sync::Arc;

use zenoh_raft::entry::{Entry, EntryPayload};
use zenoh_raft::errors::{RPCError, RPCTypes, ReplicationClosed, StreamingError, Timeout};
use zenoh_raft::log_id::LogId;
use zenoh_raft::membership::Membership;
use zenoh_raft::message::{
    AppendEntriesRequest, AppendEntriesResponse, SnapshotResponse, TransferLeaderError,
    TransferLeaderRequest, VoteRequest, VoteResponse,
};
use zenoh_raft::network::client::{QueryEnd, SentQuery, ZenohNetwork, ZenohNetworkFactory, ZenohRpcKeys};
use zenoh_raft::network::config::{
    QueryTarget, SettingValue, ZenohNetworkConfig, ZenohSessionBuilder, ZenohTlsConfig,
    DEFAULT_KEY_PREFIX, DEFAULT_TIMEOUT_SECS,
};
use zenoh_raft::network::endpoint::{
    format_quic_endpoint, format_quic_plain_endpoint, format_tcp_endpoint, format_udp_endpoint,
    format_udp_reliable_endpoint,
};
use zenoh_raft::network::server::{RpcRoute, ZenohRaftServer};
use zenoh_raft::network::wire::{
    WireAppendEntriesReq, WireAppendEntriesResp, WireSnapshotPayload, WireSnapshotResp,
    WireTransferLeaderErr, WireTransferLeaderReq, WireVoteReq, WireVoteResp,
};
use zenoh_raft::storage::{Snapshot, SnapshotMeta, StoredMembership};
use zenoh_raft::time::Duration;
use zenoh_raft::type_config::log_id;
use zenoh_raft::vote::Vote;

#[test]
fn test_network_config_default_and_validate() {
    let cfg = ZenohNetworkConfig::default();
    assert_eq!(cfg.key_prefix, DEFAULT_KEY_PREFIX);
    assert_eq!(cfg.default_timeout, Duration::from_secs(DEFAULT_TIMEOUT_SECS));
    assert_eq!(cfg.query_target, QueryTarget::BestMatching);
    assert!(cfg.validate().is_ok());

    let empty_cfg = ZenohNetworkConfig { key_prefix: "".to_string(), ..Default::default() };
    assert!(empty_cfg.validate().is_err());
}

#[test]
fn invalid_prefixes_are_refused() {
    let cfg = |p: &str| ZenohNetworkConfig { key_prefix: p.to_string(), ..Default::default() };
    assert_eq!(cfg("").validate().unwrap_err().message, "key_prefix cannot be empty");
    let e = cfg("a//b").validate().unwrap_err().message;
    assert!(e.starts_with("invalid key_prefix: "), "{}", e);
    assert!(e.len() > "invalid key_prefix: ".len());
    assert!(cfg("a$b").validate().is_err());
    assert!(cfg("a/b").validate().is_ok());
    let judged = cfg("x").validate_with(Err("why".to_string())).unwrap_err();
    assert_eq!(judged.message, "invalid key_prefix: why");
    assert_eq!(
        cfg("").validate_with(Err("why".to_string())).unwrap_err().message,
        "key_prefix cannot be empty"
    );
}

#[test]
fn test_format_endpoints() {
    assert_eq!(format_quic_endpoint("127.0.0.1:1234"), "quic/127.0.0.1:1234");
    assert_eq!(
        format_quic_plain_endpoint("127.0.0.1:1234"),
        "udp/127.0.0.1:1234?rel=1;multistream=1"
    );
    assert_eq!(
        format_quic_plain_endpoint("udp/127.0.0.1:1234"),
        "udp/127.0.0.1:1234?rel=1;multistream=1"
    );
    assert_eq!(
        format_quic_plain_endpoint("quic/127.0.0.1:1234"),
        "udp/127.0.0.1:1234?rel=1;multistream=1"
    );
    assert_eq!(format_tcp_endpoint("127.0.0.1:1234"), "tcp/127.0.0.1:1234");
}

#[test]
fn schemes_are_replaced_and_white_space_is_trimmed() {
    assert_eq!(format_tcp_endpoint("  udp/h:1\n"), "tcp/h:1");
    assert_eq!(format_tcp_endpoint("tcp/h:1 "), "tcp/h:1");
    assert_eq!(format_udp_endpoint("quic/h:1"), "udp/h:1");
    assert_eq!(format_udp_endpoint("udp/h:1?a=b"), "udp/h:1?a=b");
    assert_eq!(format_quic_endpoint("tcp/h:1"), "quic/h:1");
    assert_eq!(format_quic_endpoint("quic/h:1"), "quic/h:1");
    assert_eq!(format_tcp_endpoint(""), "tcp/");
    assert_eq!(format_tcp_endpoint("ws/h:1"), "tcp/ws/h:1");
    let odd = "\u{2003}\u{85}tcp/\u{e9}:1\u{3000}";
    assert_eq!(format_tcp_endpoint(odd), odd.trim());
    // Of two schemes only the first one is replaced.
    assert_eq!(format_udp_endpoint("tcp/quic/h:1"), "udp/quic/h:1");
}

#[test]
fn reliable_endpoints_keep_their_parameters() {
    assert_eq!(format_quic_plain_endpoint("h:1?rel=0;multistream=0"), "udp/h:1?rel=0;multistream=0");
    assert_eq!(
        format_quic_plain_endpoint("udp/h:1?rel=0;multistream=0"),
        "udp/h:1?rel=0;multistream=0"
    );
    assert_eq!(format_quic_plain_endpoint("h:1?rel=0"), "udp/h:1?rel=0;multistream=1");
    assert_eq!(format_quic_plain_endpoint("h:1?multistream=0"), "udp/h:1?multistream=0;rel=1");
    assert_eq!(format_quic_plain_endpoint("h:1?"), "udp/h:1?rel=1;multistream=1");
    assert_eq!(format_quic_plain_endpoint("h:1?x=y;"), "udp/h:1?x=y;rel=1;multistream=1");
    assert_eq!(format_quic_plain_endpoint("h:1?x=y"), "udp/h:1?x=y;rel=1;multistream=1");
    assert_eq!(
        format_quic_plain_endpoint("h:1#rel=0"),
        "udp/h:1#rel=0?rel=1;multistream=1"
    );
    assert_eq!(format_udp_reliable_endpoint(" h:1 "), format_quic_plain_endpoint("h:1"));
    for e in ["h:1", "tcp/h:1?rel=0", "h?", "x;rel=1", "h?multistream=4;"] {
        let once = format_quic_plain_endpoint(e);
        assert_eq!(format_quic_plain_endpoint(&once), once);
    }
}

#[test]
fn test_builder_build_config() {
    let plain_builder = ZenohSessionBuilder::new()
        .quic_plain("127.0.0.1:7449", true)
        .tcp("127.0.0.1:7450", false);
    assert!(plain_builder.tls.is_none());
    assert!(plain_builder.build_config().is_ok());

    let tls = ZenohTlsConfig::new("cert_b64", "key_b64", None, false);
    let tls_builder = ZenohSessionBuilder::new().quic_tls("127.0.0.1:7447", true, tls);
    assert!(tls_builder.tls.is_some());
    assert!(tls_builder.build_config().is_ok());
}

#[test]
fn a_configuration_holds_the_settings() {
    let config = ZenohSessionBuilder::new()
        .tcp("127.0.0.1:7450", true)
        .udp("127.0.0.1:7451", false)
        .build_config()
        .unwrap();
    assert_eq!(config.get_json("scouting/multicast/enabled").unwrap(), "false");
    assert_eq!(config.get_json("scouting/gossip/enabled").unwrap(), "false");
    assert_eq!(config.get_json("listen/endpoints").unwrap(), "[\"tcp/127.0.0.1:7450\"]");
    assert_eq!(config.get_json("connect/endpoints").unwrap(), "[\"udp/127.0.0.1:7451\"]");

    let mut builder = ZenohSessionBuilder::new();
    builder.enable_multicast = true;
    builder.enable_gossip = true;
    let config = builder
        .tls(ZenohTlsConfig::new("c\"q", "k", Some("ca".to_string()), true))
        .build_config()
        .unwrap();
    assert_eq!(config.get_json("scouting/multicast/enabled").unwrap(), "true");
    assert_eq!(config.get_json("scouting/gossip/enabled").unwrap(), "true");
    assert_eq!(
        config.get_json("transport/link/tls/verify_name_on_connect").unwrap(),
        "true"
    );
}

#[test]
fn settings_that_do_not_fit_are_refused() {
    let builder = ZenohSessionBuilder::new().endpoint("no endpoint", true);
    assert_eq!(builder.listen_endpoints, vec!["no endpoint".to_string()]);
    let err = builder.build_config().unwrap_err();
    assert!(!err.message.is_empty());
}

#[test]
fn settings_come_in_their_order() {
    let tls = ZenohTlsConfig::new("cert", "key", None, true);
    let b = ZenohSessionBuilder::new()
        .udp_reliable("a:1", true)
        .endpoint("  ws/b:2 ", false)
        .tls(tls);
    let settings = b.settings();
    let keys: Vec<&str> = settings.iter().map(|s| s.key).collect();
    assert_eq!(
        keys,
        vec![
            "scouting/multicast/enabled",
            "scouting/gossip/enabled",
            "listen/endpoints",
            "connect/endpoints",
            "transport/link/tls/listen_certificate_base64",
            "transport/link/tls/listen_private_key_base64",
            "transport/link/tls/connect_certificate_base64",
            "transport/link/tls/connect_private_key_base64",
            "transport/link/tls/root_ca_certificate_base64",
            "transport/link/tls/verify_name_on_connect",
        ]
    );
    assert_eq!(
        settings[2].value,
        SettingValue::List(vec!["udp/a:1?rel=1;multistream=1".to_string()])
    );
    assert_eq!(settings[3].value, SettingValue::List(vec!["ws/b:2".to_string()]));
    assert_eq!(settings[5].value, SettingValue::Text("key".to_string()));
    // The certificate stands for the root where none is given.
    assert_eq!(settings[8].value, SettingValue::Text("cert".to_string()));
    assert_eq!(settings[9].value, SettingValue::Flag(true));
    assert_eq!(ZenohSessionBuilder::new().settings().len(), 2);
}

#[test]
fn credentials_in_pem_are_written_in_base64() {
    let tls = ZenohTlsConfig::from_pem("hello", "ab", Some("a"), true);
    assert_eq!(tls.cert_base64, "aGVsbG8=");
    assert_eq!(tls.key_base64, "YWI=");
    assert_eq!(tls.root_ca_base64.as_deref(), Some("YQ=="));
    assert!(tls.verify_name_on_connect);
    let tls = ZenohTlsConfig::from_pem("", "\u{fb}\u{fe}?>", None, false);
    assert_eq!(tls.cert_base64, "");
    assert_eq!(tls.key_base64, "w7vDvj8+");
    assert_eq!(tls.root_ca_base64, None);
}

#[test]
fn test_zenoh_rpc_keys_generation() {
    let keys = ZenohRpcKeys::try_new("test_cluster", &10).expect("generate keys");
    assert_eq!(keys.append_entries.as_str(), "test_cluster/10/append_entries");
    assert_eq!(keys.vote.as_str(), "test_cluster/10/vote");
    assert_eq!(keys.pre_vote.as_str(), "test_cluster/10/pre_vote");
    assert_eq!(keys.snapshot.as_str(), "test_cluster/10/snapshot");
    assert_eq!(keys.transfer_leader.as_str(), "test_cluster/10/transfer_leader");

    let keys_new = ZenohRpcKeys::new("test_cluster", &10);
    assert_eq!(keys_new.append_entries.as_str(), keys.append_entries.as_str());
}

#[test]
fn test_zenoh_rpc_keys_invalid() {
    // Key expressions cannot contain '$' as non-wildcard
    let err = ZenohRpcKeys::try_new("test$cluster", &10);
    assert!(err.is_err());
    let message = err.unwrap_err().message;
    assert!(message.starts_with("invalid key_expr for append_entries: "), "{}", message);
}

fn network(target: u64) -> ZenohNetwork {
    let config = ZenohSessionBuilder::new().build_config().unwrap();
    let session = zenoh::Wait::wait(zenoh::open(config)).unwrap();
    let factory = ZenohNetworkFactory::new(Arc::new(session), ZenohNetworkConfig::default());
    assert_eq!(factory.config().key_prefix, "zenoh_raft");
    let _ = factory.session();
    let client = factory.new_client(target);
    assert_eq!(client.keys.vote, factory.try_new_client(target).ok().unwrap().keys.vote);
    client
}

#[test]
fn queries_end_as_they_should() {
    let n = network(3);
    assert_eq!(n.target, 3);
    assert_eq!(n.keys.snapshot, "zenoh_raft/3/snapshot");
    let sent = |elapsed: u64| SentQuery {
        action: RPCTypes::Vote,
        timeout: Duration::from_millis(500),
        elapsed: Duration::from_millis(elapsed),
    };
    assert_eq!(n.send_query(sent(1), QueryEnd::Answered(Ok(7u64))), Ok(7));
    assert_eq!(
        n.send_query(sent(1), QueryEnd::<u64>::Answered(Err("bad".to_string()))),
        Err(RPCError::Network("bad".to_string()))
    );
    assert_eq!(
        n.send_query(sent(1), QueryEnd::<u64>::NotSent("no".to_string())),
        Err(RPCError::Unreachable("no".to_string()))
    );
    assert_eq!(
        n.send_query(sent(1), QueryEnd::<u64>::Refused(Some("vote error: x".to_string()))),
        Err(RPCError::Unreachable("vote error: x".to_string()))
    );
    assert_eq!(
        n.send_query(sent(1), QueryEnd::<u64>::Refused(None)),
        Err(RPCError::Unreachable("Zenoh query error".to_string()))
    );
    // A query that is closed within the tolerance of its time has timed out.
    assert_eq!(
        n.send_query(sent(485), QueryEnd::<u64>::Closed),
        Err(RPCError::Timeout(Timeout {
            action: RPCTypes::Vote,
            id: 3,
            target: 3,
            timeout: Duration::from_millis(500),
        }))
    );
    assert_eq!(
        n.send_query(sent(484), QueryEnd::<u64>::Closed),
        Err(RPCError::Unreachable(
            "target node 3 unreachable: query channel closed after 484ms".to_string()
        ))
    );
}

#[test]
fn rpcs_go_to_their_keys() {
    let n = network(4);
    let req = VoteRequest::new(Vote::new(2, 1), Some(log_id(1, 1, 5)));
    let q = n.vote(req);
    assert_eq!((q.key.as_str(), q.action), ("zenoh_raft/4/vote", RPCTypes::Vote));
    assert!(!q.request.is_pre_vote);
    let q = n.pre_vote(req);
    assert_eq!((q.key.as_str(), q.action), ("zenoh_raft/4/pre_vote", RPCTypes::Vote));
    assert!(q.request.is_pre_vote);
    assert_eq!(q.request.vote, Vote::new(2, 1));
    let append: AppendEntriesRequest<EntryPayload<u64, ()>> = AppendEntriesRequest {
        vote: Vote::new_committed(1, 1),
        prev_log_id: None,
        entries: vec![Entry { log_id: log_id(1, 1, 0), payload: EntryPayload::Normal(5) }],
        leader_commit: Some(log_id(1, 1, 0)),
    };
    let q = n.append_entries(append);
    assert_eq!(
        (q.key.as_str(), q.action),
        ("zenoh_raft/4/append_entries", RPCTypes::AppendEntries)
    );
    assert_eq!(q.request.entries.len(), 1);
    let t = TransferLeaderRequest::new(Vote::new_committed(1, 1), 4, None);
    let q = n.transfer_leader(t);
    assert_eq!(
        (q.key.as_str(), q.action),
        ("zenoh_raft/4/transfer_leader", RPCTypes::TransferLeader)
    );
    assert_eq!(q.request.to_node_id, 4);
    let q = n.full_snapshot(Vote::new_committed(1, 1), snapshot());
    assert_eq!(
        (q.key.as_str(), q.action),
        ("zenoh_raft/4/snapshot", RPCTypes::InstallSnapshot)
    );
    assert_eq!(q.request.data, vec![1, 2, 3]);
}

fn snapshot() -> Snapshot<(), Vec<u8>> {
    Snapshot {
        meta: SnapshotMeta {
            last_log_id: Some(log_id(1, 1, 3)),
            last_membership: StoredMembership::new(None, Membership::empty()),
        },
        snapshot: vec![1, 2, 3],
    }
}

#[test]
fn answers_are_converted() {
    let failed = || RPCError::Network("n".to_string());
    let granted = WireVoteResp { vote: Vote::new(1, 1), vote_granted: true, last_log_id: None };
    assert_eq!(
        ZenohNetwork::vote_answer(Ok(granted)),
        Ok(VoteResponse::new(Vote::new(1, 1), None, true))
    );
    assert_eq!(ZenohNetwork::vote_answer(Err(failed())), Err(failed()));
    assert_eq!(
        ZenohNetwork::append_entries_answer(Ok(WireAppendEntriesResp::Conflict)),
        Ok(AppendEntriesResponse::Conflict)
    );
    assert_eq!(ZenohNetwork::append_entries_answer(Err(failed())), Err(failed()));
    let v = Vote::new_committed(3, 3);
    assert_eq!(
        ZenohNetwork::full_snapshot_answer(Ok(Ok(WireSnapshotResp { vote: v }))),
        Ok(SnapshotResponse { vote: v })
    );
    assert_eq!(
        ZenohNetwork::full_snapshot_answer(Ok(Err(failed()))),
        Err(StreamingError::RPC(failed()))
    );
    let closed = || ReplicationClosed { reason: "gone".to_string() };
    assert_eq!(
        ZenohNetwork::full_snapshot_answer(Err(closed())),
        Err(StreamingError::Closed(closed()))
    );
    assert_eq!(ZenohNetwork::transfer_leader_answer(Ok(Ok(()))), Ok(Ok(())));
    assert_eq!(
        ZenohNetwork::transfer_leader_answer(Ok(Err(WireTransferLeaderErr::LogNotFlushed {
            expected: None,
            actual: Some(log_id(1, 1, 1)),
        }))),
        Ok(Err(TransferLeaderError::LogNotFlushed {
            expected: None,
            actual: Some(log_id(1, 1, 1)),
        }))
    );
    assert_eq!(ZenohNetwork::transfer_leader_answer(Err(failed())), Err(failed()));
}

#[test]
fn queries_are_dispatched_by_the_last_part_of_their_key() {
    let keys = ZenohRpcKeys::new("a/b", &12);
    let d = ZenohRaftServer::dispatch_query;
    assert_eq!(d(&keys.append_entries), Ok(RpcRoute::AppendEntries));
    assert_eq!(d(&keys.vote), Ok(RpcRoute::Vote));
    assert_eq!(d(&keys.pre_vote), Ok(RpcRoute::PreVote));
    assert_eq!(d(&keys.snapshot), Ok(RpcRoute::Snapshot));
    assert_eq!(d(&keys.transfer_leader), Ok(RpcRoute::TransferLeader));
    for key in ["vote", "a/1/votes", "a/1/vote/", "a/1/", "", "a/1/Vote"] {
        assert_eq!(d(key), Err("unknown RPC route"), "{}", key);
    }
    assert_eq!(RpcRoute::PreVote.name(), "pre_vote");
    assert_eq!(ZenohRaftServer::selector("a/b", 12), "a/b/12/**");
}

#[test]
fn queries_are_answered() {
    let bad = || "eof".to_string();
    let wire = WireVoteReq {
        vote: Vote::new(2, 1),
        last_log_id: None,
        leadership_transfer: true,
        is_pre_vote: false,
    };
    assert_eq!(
        ZenohRaftServer::vote_call(Ok(wire)),
        Ok(VoteRequest {
            vote: Vote::new(2, 1),
            last_log_id: None,
            leadership_transfer: true,
            is_pre_vote: false,
        })
    );
    assert!(ZenohRaftServer::pre_vote_call(Ok(wire)).unwrap().is_pre_vote);
    assert_eq!(ZenohRaftServer::vote_call(Err(bad())), Err("decode error: eof".to_string()));
    assert_eq!(ZenohRaftServer::pre_vote_call(Err(bad())), Err("decode error: eof".to_string()));
    let resp = VoteResponse::new(Vote::new(2, 1), None, false);
    assert_eq!(ZenohRaftServer::vote_reply(false, Ok(resp)).unwrap().vote_granted, false);
    assert_eq!(
        ZenohRaftServer::vote_reply(false, Err("stopped".to_string())),
        Err("vote error: stopped".to_string())
    );
    assert_eq!(
        ZenohRaftServer::vote_reply(true, Err("stopped".to_string())),
        Err("pre_vote error: stopped".to_string())
    );
    assert_eq!(
        ZenohRaftServer::append_entries_reply(Err("stopped".to_string())),
        Err("append_entries error: stopped".to_string())
    );
    assert_eq!(
        ZenohRaftServer::append_entries_reply(Ok(AppendEntriesResponse::Success)),
        Ok(WireAppendEntriesResp::Success)
    );
    assert_eq!(
        ZenohRaftServer::snapshot_reply(Err("stopped".to_string())),
        Err("snapshot error: stopped".to_string())
    );
    let v = Vote::new_committed(1, 1);
    assert_eq!(
        ZenohRaftServer::snapshot_reply(Ok(SnapshotResponse { vote: v })),
        Ok(WireSnapshotResp { vote: v })
    );
    assert_eq!(
        ZenohRaftServer::transfer_leader_reply(Err("stopped".to_string())),
        Err("transfer_leader error: stopped".to_string())
    );
    assert_eq!(ZenohRaftServer::transfer_leader_reply(Ok(Ok(()))), Ok(Ok(())));
    let refused = TransferLeaderError::VoteChanged { expected: v, actual: Vote::new(2, 2) };
    assert_eq!(
        ZenohRaftServer::transfer_leader_reply(Ok(Err(refused))),
        Ok(Err(WireTransferLeaderErr::VoteChanged { expected: v, actual: Vote::new(2, 2) }))
    );
    let call = ZenohRaftServer::transfer_leader_call(Ok(WireTransferLeaderReq {
        from_leader: v,
        to_node_id: 2,
        last_log_id: None,
    }));
    assert_eq!(call, Ok(TransferLeaderRequest::new(v, 2, None)));
    let payload = WireSnapshotPayload::from_snapshot(v, snapshot());
    let (vote, s) = ZenohRaftServer::snapshot_call(Ok(payload)).unwrap();
    assert_eq!((vote, s.snapshot, s.meta.last_log_id), (v, vec![1, 2, 3], Some(log_id(1, 1, 3))));
    assert!(matches!(
        ZenohRaftServer::append_entries_call::<EntryPayload<u64, ()>>(Err(bad())),
        Err(m) if m == "decode error: eof"
    ));
}

#[test]
fn messages_come_back_from_the_wire() {
    let v = Vote::new_committed(4, 2);
    let l = Some(log_id(4, 2, 9));
    let req: AppendEntriesRequest<EntryPayload<u64, ()>> = AppendEntriesRequest {
        vote: v,
        prev_log_id: l,
        entries: vec![Entry { log_id: log_id(4, 2, 10), payload: EntryPayload::Blank }],
        leader_commit: None,
    };
    let wire = WireAppendEntriesReq::from(req);
    assert_eq!((wire.vote, wire.prev_log_id, wire.leader_commit), (v, l, None));
    let back = AppendEntriesRequest::from(wire);
    assert_eq!((back.vote, back.prev_log_id, back.entries[0].log_id.index), (v, l, 10));
    let responses = [
        AppendEntriesResponse::Success,
        AppendEntriesResponse::PartialSuccess(l),
        AppendEntriesResponse::Conflict,
        AppendEntriesResponse::HigherVote(v),
    ];
    for r in responses {
        let wire: WireAppendEntriesResp<Vote, LogId> = r.into();
        assert_eq!(AppendEntriesResponse::from(wire), r);
    }
    let req = VoteRequest::new_pre_vote(v, l);
    assert_eq!(VoteRequest::from(WireVoteReq::from(req)), req);
    assert!(!WireVoteReq::from(req).into_vote_request(false).is_pre_vote);
    let resp = VoteResponse::new(v, l, true);
    assert_eq!(VoteResponse::from(WireVoteResp::from(resp)), resp);
    let resp = SnapshotResponse { vote: v };
    assert_eq!(SnapshotResponse::from(WireSnapshotResp::from(resp)), resp);
    let req = TransferLeaderRequest::new(v, 7, l);
    assert_eq!(TransferLeaderRequest::from(WireTransferLeaderReq::from(req)), req);
    for e in [
        TransferLeaderError::VoteChanged { expected: v, actual: Vote::new(9, 9) },
        TransferLeaderError::LogNotFlushed { expected: l, actual: None },
    ] {
        assert_eq!(TransferLeaderError::from(WireTransferLeaderErr::from(e)), e);
    }
}
