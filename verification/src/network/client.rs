//! The client of a node: the keys of its RPCs, and what becomes of a query.

use std::sync::Arc;
use vstd::prelude::*;
use vstd::std_specs::convert::FromSpec;
use vstd::string::*;
use crate::entry::Entry;
use crate::errors::{
    MessageError,
    RPCError,
    RPCTypes,
    ReplicationClosed,
    StreamingError,
    Timeout,
};
use crate::log_id::LogId;
use crate::message::{
    AppendEntriesRequest,
    AppendEntriesResponse,
    SnapshotResponse,
    TransferLeaderError,
    TransferLeaderRequest,
    VoteRequest,
    VoteResponse,
};
use crate::network::config;
use crate::network::config::ZenohNetworkConfig;
use crate::network::wire::{
    RPC_APPEND_ENTRIES,
    RPC_PRE_VOTE,
    RPC_SNAPSHOT,
    RPC_TRANSFER_LEADER,
    RPC_VOTE,
    WireAppendEntriesReq,
    WireAppendEntriesResp,
    WireSnapshotPayload,
    WireSnapshotResp,
    WireTransferLeaderErr,
    WireTransferLeaderReq,
    WireVoteReq,
    WireVoteResp,
};
use crate::storage::{Snapshot, SnapshotMeta};
use crate::text;
use crate::time::Duration;
use crate::vote::Vote;

verus! {

/// How many nanoseconds before its time a query counts as timed out.
pub const TIMEOUT_TOLERANCE_NANOS: u128 = 15_000_000;

/// The error of a query whose own error cannot be read.
pub const ERR_ZENOH_QUERY: &'static str = "Zenoh query error";

/// A session of the network.
#[verifier::external_type_specification]
#[verifier::external_body]
pub struct ExSession(zenoh::Session);

/// The keys of the RPCs of a node.
#[derive(Clone, Debug, PartialEq, Eq)]
pub struct ZenohRpcKeys {
    pub append_entries: String,
    pub vote: String,
    pub pre_vote: String,
    pub snapshot: String,
    pub transfer_leader: String,
}

/// The key of an RPC: the prefix of the cluster, the node and the name of the RPC.
pub open spec fn rpc_key(key_prefix: Seq<char>, target: u64, rpc: Seq<char>) -> Seq<char> {
    key_prefix + "/"@ + text::decimal(target as nat) + "/"@ + rpc
}

fn make_key(key_prefix: &str, target: u64, rpc: &str) -> (r: String)
    ensures
        r@ == rpc_key(key_prefix@, target, rpc@),
{
    let t = text::u64_text(target);
    key_prefix.to_owned().concat("/").concat(t.as_str()).concat("/").concat(rpc)
}

/// Whether the key of an RPC is a key expression.
pub open spec fn rpc_key_valid(key_prefix: Seq<char>, target: u64, rpc: Seq<char>) -> bool {
    config::key_expr_valid(rpc_key(key_prefix, target, rpc))
}

/// The first RPC whose key is not a key expression.
pub open spec fn first_invalid(key_prefix: Seq<char>, target: u64) -> Option<Seq<char>> {
    if !rpc_key_valid(key_prefix, target, RPC_APPEND_ENTRIES@) {
        Some(RPC_APPEND_ENTRIES@)
    } else if !rpc_key_valid(key_prefix, target, RPC_VOTE@) {
        Some(RPC_VOTE@)
    } else if !rpc_key_valid(key_prefix, target, RPC_PRE_VOTE@) {
        Some(RPC_PRE_VOTE@)
    } else if !rpc_key_valid(key_prefix, target, RPC_SNAPSHOT@) {
        Some(RPC_SNAPSHOT@)
    } else if !rpc_key_valid(key_prefix, target, RPC_TRANSFER_LEADER@) {
        Some(RPC_TRANSFER_LEADER@)
    } else {
        None
    }
}

/// The error of an RPC whose key is refused for a reason.
pub open spec fn key_error_spec(rpc: Seq<char>, reason: Seq<char>) -> Seq<char> {
    "invalid key_expr for "@ + rpc + ": "@ + reason
}

/// The error of an RPC whose key is refused for a reason.
pub fn key_error(rpc: &str, reason: &str) -> (r: MessageError)
    ensures
        r.message@ == key_error_spec(rpc@, reason@),
{
    MessageError {
        message: "invalid key_expr for ".to_owned().concat(rpc).concat(": ").concat(reason),
    }
}

/// Whether a message is the error of an RPC whose key is refused, for whatever reason.
pub open spec fn tells_of(message: Seq<char>, rpc: Seq<char>) -> bool {
    exists|reason: Seq<char>| message == #[trigger] key_error_spec(rpc, reason)
}

fn check_rpc_key(key_prefix: &str, target: u64, rpc: &str) -> (r: Result<(), MessageError>)
    ensures
        match r {
            Ok(_) => rpc_key_valid(key_prefix@, target, rpc@),
            Err(e) => !rpc_key_valid(key_prefix@, target, rpc@) && tells_of(e.message@, rpc@),
        },
{
    let key = make_key(key_prefix, target, rpc);
    match config::check_key_expr(key.as_str()) {
        Ok(_) => Ok(()),
        Err(reason) => Err(key_error(rpc, reason.as_str())),
    }
}

impl ZenohRpcKeys {
    /// Whether these are the keys of a node.
    pub open spec fn are_keys_of(self, key_prefix: Seq<char>, target: u64) -> bool {
        &&& self.append_entries@ == rpc_key(key_prefix, target, RPC_APPEND_ENTRIES@)
        &&& self.vote@ == rpc_key(key_prefix, target, RPC_VOTE@)
        &&& self.pre_vote@ == rpc_key(key_prefix, target, RPC_PRE_VOTE@)
        &&& self.snapshot@ == rpc_key(key_prefix, target, RPC_SNAPSHOT@)
        &&& self.transfer_leader@ == rpc_key(key_prefix, target, RPC_TRANSFER_LEADER@)
    }

    /// The keys of a node, if each is a key expression.  The error tells of the first one that is
    /// not.
    pub fn try_new(key_prefix: &str, target: &u64) -> (r: Result<ZenohRpcKeys, MessageError>)
        ensures
            match r {
                Ok(keys) => first_invalid(key_prefix@, *target) is None && keys.are_keys_of(
                    key_prefix@,
                    *target,
                ),
                Err(e) => match first_invalid(key_prefix@, *target) {
                    Some(rpc) => tells_of(e.message@, rpc),
                    None => false,
                },
            },
    {
        if let Err(e) = check_rpc_key(key_prefix, *target, RPC_APPEND_ENTRIES) {
            return Err(e);
        }
        if let Err(e) = check_rpc_key(key_prefix, *target, RPC_VOTE) {
            return Err(e);
        }
        if let Err(e) = check_rpc_key(key_prefix, *target, RPC_PRE_VOTE) {
            return Err(e);
        }
        if let Err(e) = check_rpc_key(key_prefix, *target, RPC_SNAPSHOT) {
            return Err(e);
        }
        if let Err(e) = check_rpc_key(key_prefix, *target, RPC_TRANSFER_LEADER) {
            return Err(e);
        }
        Ok(ZenohRpcKeys::new(key_prefix, target))
    }

    /// The keys of a node.  Each must be a key expression.
    pub fn new(key_prefix: &str, target: &u64) -> (r: ZenohRpcKeys)
        requires
            first_invalid(key_prefix@, *target) is None,
        ensures
            r.are_keys_of(key_prefix@, *target),
    {
        ZenohRpcKeys {
            append_entries: make_key(key_prefix, *target, RPC_APPEND_ENTRIES),
            vote: make_key(key_prefix, *target, RPC_VOTE),
            pre_vote: make_key(key_prefix, *target, RPC_PRE_VOTE),
            snapshot: make_key(key_prefix, *target, RPC_SNAPSHOT),
            transfer_leader: make_key(key_prefix, *target, RPC_TRANSFER_LEADER),
        }
    }
}

/// Makes clients of nodes.
pub struct ZenohNetworkFactory {
    session: Arc<zenoh::Session>,
    config: ZenohNetworkConfig,
}

impl ZenohNetworkFactory {
    /// The session of the factory.
    pub closed spec fn session_spec(self) -> Arc<zenoh::Session> {
        self.session
    }

    /// The configuration of the factory.
    pub closed spec fn config_spec(self) -> ZenohNetworkConfig {
        self.config
    }

    /// A factory of its parts.
    pub fn new(session: Arc<zenoh::Session>, config: ZenohNetworkConfig) -> (r: ZenohNetworkFactory)
        ensures
            r.session_spec() == session,
            r.config_spec() == config,
    {
        ZenohNetworkFactory { session, config }
    }

    /// The session of the factory.
    pub fn session(&self) -> (r: &Arc<zenoh::Session>)
        ensures
            *r == self.session_spec(),
    {
        &self.session
    }

    /// The configuration of the factory.
    pub fn config(&self) -> (r: &ZenohNetworkConfig)
        ensures
            *r == self.config_spec(),
    {
        &self.config
    }

    /// A client of a node.  The keys of the node must be key expressions.
    pub fn new_client(&self, target: u64) -> (r: ZenohNetwork)
        requires
            first_invalid(self.config_spec().key_prefix@, target) is None,
        ensures
            r.target == target,
            r.keys.are_keys_of(self.config_spec().key_prefix@, target),
            r.session == self.session_spec(),
            r.config.same(self.config_spec()),
    {
        ZenohNetwork {
            target,
            keys: ZenohRpcKeys::new(self.config.key_prefix.as_str(), &target),
            session: self.session.clone(),
            config: self.config.duplicate(),
        }
    }

    /// A client of a node, unless a key of the node is not a key expression.
    pub fn try_new_client(&self, target: u64) -> (r: Result<ZenohNetwork, MessageError>)
        ensures
            match r {
                Ok(n) => {
                    &&& first_invalid(self.config_spec().key_prefix@, target) is None
                    &&& n.target == target
                    &&& n.keys.are_keys_of(self.config_spec().key_prefix@, target)
                    &&& n.session == self.session_spec()
                    &&& n.config.same(self.config_spec())
                },
                Err(e) => match first_invalid(self.config_spec().key_prefix@, target) {
                    Some(rpc) => tells_of(e.message@, rpc),
                    None => false,
                },
            },
    {
        match ZenohRpcKeys::try_new(self.config.key_prefix.as_str(), &target) {
            Ok(_) => Ok(self.new_client(target)),
            Err(e) => Err(e),
        }
    }
}

/// A client of a node.
pub struct ZenohNetwork {
    pub target: u64,
    pub keys: ZenohRpcKeys,
    pub session: Arc<zenoh::Session>,
    pub config: ZenohNetworkConfig,
}

/// How a query ended.
pub enum QueryEnd<R> {
    /// It was not sent, with the error of the session.
    NotSent(String),
    /// The node answered, and the answer was read or was not.
    Answered(Result<R, String>),
    /// The node refused, with an error that was read or was not.
    Refused(Option<String>),
    /// No answer came before the query was closed.
    Closed,
}

/// A query that was sent.
#[derive(Clone, Copy, Debug, PartialEq, Eq, Structural)]
pub struct SentQuery {
    pub action: RPCTypes,
    /// How long the query may take.
    pub timeout: Duration,
    /// How long it took.
    pub elapsed: Duration,
}

/// What an RPC asks of the network.
pub struct RpcQuery<'a, R> {
    pub key: &'a String,
    pub action: RPCTypes,
    pub request: R,
}

impl ZenohNetwork {
    /// What is returned of a query.  One that was closed is a timeout if its time was nearly over;
    /// otherwise the node is not there.
    pub open spec fn query_result<R>(&self, sent: SentQuery, end: QueryEnd<R>) -> Result<
        R,
        RpcErrorView,
    > {
        match end {
            QueryEnd::NotSent(e) => Err(RpcErrorView::Unreachable(e@)),
            QueryEnd::Answered(Ok(resp)) => Ok(resp),
            QueryEnd::Answered(Err(e)) => Err(RpcErrorView::Network(e@)),
            QueryEnd::Refused(Some(e)) => Err(RpcErrorView::Unreachable(e@)),
            QueryEnd::Refused(None) => Err(RpcErrorView::Unreachable(ERR_ZENOH_QUERY@)),
            QueryEnd::Closed => if sent.elapsed.nanos + TIMEOUT_TOLERANCE_NANOS
                >= sent.timeout.nanos {
                Err(
                    RpcErrorView::Timeout(
                        Timeout {
                            action: sent.action,
                            id: self.target,
                            target: self.target,
                            timeout: sent.timeout,
                        },
                    ),
                )
            } else {
                Err(
                    RpcErrorView::Unreachable(
                        "target node "@ + text::decimal(self.target as nat)
                            + " unreachable: query channel closed after "@ + sent.elapsed.text(),
                    ),
                )
            },
        }
    }

    /// What is returned of a query.
    pub fn send_query<R>(&self, sent: SentQuery, end: QueryEnd<R>) -> (r: Result<R, RPCError>)
        requires
            sent.elapsed.nanos + TIMEOUT_TOLERANCE_NANOS < (u64::MAX + 1) * 1_000_000_000,
        ensures
            match (r, self.query_result(sent, end)) {
                (Ok(a), Ok(b)) => a == b,
                (Err(a), Err(b)) => a@ == b,
                _ => false,
            },
    {
        match end {
            QueryEnd::NotSent(e) => Err(RPCError::Unreachable(e)),
            QueryEnd::Answered(Ok(resp)) => Ok(resp),
            QueryEnd::Answered(Err(e)) => Err(RPCError::Network(e)),
            QueryEnd::Refused(Some(e)) => Err(RPCError::Unreachable(e)),
            QueryEnd::Refused(None) => Err(RPCError::Unreachable(ERR_ZENOH_QUERY.to_owned())),
            QueryEnd::Closed => {
                if sent.elapsed.nanos + TIMEOUT_TOLERANCE_NANOS >= sent.timeout.nanos {
                    Err(
                        RPCError::Timeout(
                            Timeout {
                                action: sent.action,
                                id: self.target,
                                target: self.target,
                                timeout: sent.timeout,
                            },
                        ),
                    )
                } else {
                    let t = text::u64_text(self.target);
                    let e = sent.elapsed.to_string();
                    Err(
                        RPCError::Unreachable(
                            "target node ".to_owned().concat(t.as_str()).concat(
                                " unreachable: query channel closed after ",
                            ).concat(e.as_str()),
                        ),
                    )
                }
            },
        }
    }

    /// Ask the node to append entries.
    pub fn append_entries<P>(&self, rpc: AppendEntriesRequest<P>) -> (r: RpcQuery<
        '_,
        WireAppendEntriesReq<Vote, LogId, Entry<P>>,
    >)
        ensures
            *r.key == self.keys.append_entries,
            r.action == RPCTypes::AppendEntries,
            r.request == WireAppendEntriesReq::<Vote, LogId, Entry<P>>::from_spec(rpc),
    {
        RpcQuery {
            key: &self.keys.append_entries,
            action: RPCTypes::AppendEntries,
            request: WireAppendEntriesReq::from(rpc),
        }
    }

    /// The answer to appended entries.
    pub fn append_entries_answer(
        answer: Result<WireAppendEntriesResp<Vote, LogId>, RPCError>,
    ) -> (r: Result<AppendEntriesResponse, RPCError>)
        ensures
            match answer {
                Ok(w) => r == Ok::<_, RPCError>(AppendEntriesResponse::from_spec(w)),
                Err(e) => r == Err::<AppendEntriesResponse, _>(e),
            },
    {
        match answer {
            Ok(w) => Ok(AppendEntriesResponse::from(w)),
            Err(e) => Err(e),
        }
    }

    /// Ask the node for its vote.
    pub fn vote(&self, rpc: VoteRequest) -> (r: RpcQuery<'_, WireVoteReq<Vote, LogId>>)
        ensures
            *r.key == self.keys.vote,
            r.action == RPCTypes::Vote,
            r.request == WireVoteReq::<Vote, LogId>::from_spec(rpc),
    {
        RpcQuery {
            key: &self.keys.vote,
            action: RPCTypes::Vote,
            request: WireVoteReq::from(rpc),
        }
    }

    /// Ask the node whether it would grant its vote.
    pub fn pre_vote(&self, rpc: VoteRequest) -> (r: RpcQuery<'_, WireVoteReq<Vote, LogId>>)
        ensures
            *r.key == self.keys.pre_vote,
            r.action == RPCTypes::Vote,
            r.request == WireVoteReq::<Vote, LogId>::from_spec(
                VoteRequest { is_pre_vote: true, ..rpc },
            ),
    {
        let mut rpc = rpc;
        rpc.is_pre_vote = true;
        RpcQuery {
            key: &self.keys.pre_vote,
            action: RPCTypes::Vote,
            request: WireVoteReq::from(rpc),
        }
    }

    /// The answer to a request for a vote, or to whether it would be granted.
    pub fn vote_answer(answer: Result<WireVoteResp<Vote, LogId>, RPCError>) -> (r: Result<
        VoteResponse,
        RPCError,
    >)
        ensures
            match answer {
                Ok(w) => r == Ok::<_, RPCError>(VoteResponse::from_spec(w)),
                Err(e) => r == Err::<VoteResponse, _>(e),
            },
    {
        match answer {
            Ok(w) => Ok(VoteResponse::from(w)),
            Err(e) => Err(e),
        }
    }

    /// Send the node a snapshot.
    pub fn full_snapshot<N>(&self, vote: Vote, snapshot: Snapshot<N, Vec<u8>>) -> (r: RpcQuery<
        '_,
        WireSnapshotPayload<Vote, SnapshotMeta<N>>,
    >)
        ensures
            *r.key == self.keys.snapshot,
            r.action == RPCTypes::InstallSnapshot,
            r.request == (WireSnapshotPayload {
                vote,
                meta: snapshot.meta,
                data: snapshot.snapshot,
            }),
    {
        RpcQuery {
            key: &self.keys.snapshot,
            action: RPCTypes::InstallSnapshot,
            request: WireSnapshotPayload::from_snapshot(vote, snapshot),
        }
    }

    /// The answer to a snapshot, or why the sender gave up waiting for it.
    pub fn full_snapshot_answer(
        answer: Result<Result<WireSnapshotResp<Vote>, RPCError>, ReplicationClosed>,
    ) -> (r: Result<SnapshotResponse, StreamingError>)
        ensures
            match answer {
                Ok(Ok(w)) => r == Ok::<_, StreamingError>(SnapshotResponse::from_spec(w)),
                Ok(Err(e)) => r == Err::<SnapshotResponse, _>(StreamingError::RPC(e)),
                Err(closed) => r == Err::<SnapshotResponse, _>(StreamingError::Closed(closed)),
            },
    {
        match answer {
            Ok(Ok(w)) => Ok(SnapshotResponse::from(w)),
            Ok(Err(e)) => Err(StreamingError::RPC(e)),
            Err(closed) => Err(StreamingError::Closed(closed)),
        }
    }

    /// Hand the leadership over to the node.
    pub fn transfer_leader(&self, req: TransferLeaderRequest) -> (r: RpcQuery<
        '_,
        WireTransferLeaderReq<Vote, u64, LogId>,
    >)
        ensures
            *r.key == self.keys.transfer_leader,
            r.action == RPCTypes::TransferLeader,
            r.request == WireTransferLeaderReq::<Vote, u64, LogId>::from_spec(req),
    {
        RpcQuery {
            key: &self.keys.transfer_leader,
            action: RPCTypes::TransferLeader,
            request: WireTransferLeaderReq::from(req),
        }
    }

    /// The answer to a leadership that was handed over.
    pub fn transfer_leader_answer(
        answer: Result<Result<(), WireTransferLeaderErr<Vote, LogId>>, RPCError>,
    ) -> (r: Result<Result<(), TransferLeaderError>, RPCError>)
        ensures
            match answer {
                Ok(Ok(_)) => r == Ok::<_, RPCError>(Ok::<(), TransferLeaderError>(())),
                Ok(Err(e)) => r == Ok::<_, RPCError>(
                    Err::<(), _>(TransferLeaderError::from_spec(e)),
                ),
                Err(e) => r == Err::<Result<(), TransferLeaderError>, _>(e),
            },
    {
        match answer {
            Ok(Ok(_)) => Ok(Ok(())),
            Ok(Err(e)) => Ok(Err(TransferLeaderError::from(e))),
            Err(e) => Err(e),
        }
    }
}

/// Why an RPC failed, as mathematics.
pub enum RpcErrorView {
    Timeout(Timeout),
    Unreachable(Seq<char>),
    Network(Seq<char>),
}

impl View for RPCError {
    type V = RpcErrorView;

    open spec fn view(&self) -> RpcErrorView {
        match self {
            RPCError::Timeout(t) => RpcErrorView::Timeout(*t),
            RPCError::Unreachable(e) => RpcErrorView::Unreachable(e@),
            RPCError::Network(e) => RpcErrorView::Network(e@),
        }
    }
}

/// Different nodes of a cluster have different keys for an RPC.
pub proof fn keys_tell_nodes_apart(key_prefix: Seq<char>, a: u64, b: u64, rpc: Seq<char>)
    requires
        rpc_key(key_prefix, a, rpc) == rpc_key(key_prefix, b, rpc),
    ensures
        a == b,
{
    reveal_strlit("/");
    let x = text::decimal(a as nat);
    let y = text::decimal(b as nat);
    let n = key_prefix.len() + 1;
    let ka = rpc_key(key_prefix, a, rpc);
    let kb = rpc_key(key_prefix, b, rpc);
    assert(ka.len() == n + x.len() + 1 + rpc.len());
    assert(kb.len() == n + y.len() + 1 + rpc.len());
    assert(ka.subrange(n as int, (n + x.len()) as int) =~= x);
    assert(kb.subrange(n as int, (n + y.len()) as int) =~= y);
    text::decimal_is_injective(a as nat, b as nat);
}

/// A key is the prefix of the cluster, the decimal notation of the node and the name of the RPC, with
/// slashes between them.
pub proof fn keys_hold_their_parts(key_prefix: Seq<char>, target: u64, rpc: Seq<char>)
    ensures
        ({
            let key = rpc_key(key_prefix, target, rpc);
            let node = text::decimal(target as nat);
            let p = key_prefix.len() as int;
            let n = node.len() as int;
            &&& key.len() == p + 1 + n + 1 + rpc.len()
            &&& key.take(p) == key_prefix
            &&& key[p] == '/'
            &&& key.subrange(p + 1, p + 1 + n) == node
            &&& key[p + 1 + n] == '/'
            &&& key.skip(p + 1 + n + 1) == rpc
        }),
{
    reveal_strlit("/");
    let key = rpc_key(key_prefix, target, rpc);
    let node = text::decimal(target as nat);
    let p = key_prefix.len() as int;
    let n = node.len() as int;
    assert(key.take(p) =~= key_prefix);
    assert(key.subrange(p + 1, p + 1 + n) =~= node);
    assert(key.skip(p + 1 + n + 1) =~= rpc);
}

/// The keys of a node are checked in the order of their RPCs, and the first that is refused is told
/// of: it is refused, and those before it are not.  All are taken exactly if none is told of.
pub proof fn keys_are_checked_in_order(key_prefix: Seq<char>, target: u64)
    ensures
        ({
            let append = config::key_expr_valid(rpc_key(key_prefix, target, RPC_APPEND_ENTRIES@));
            let vote = config::key_expr_valid(rpc_key(key_prefix, target, RPC_VOTE@));
            let pre_vote = config::key_expr_valid(rpc_key(key_prefix, target, RPC_PRE_VOTE@));
            let snapshot = config::key_expr_valid(rpc_key(key_prefix, target, RPC_SNAPSHOT@));
            let transfer = config::key_expr_valid(
                rpc_key(key_prefix, target, RPC_TRANSFER_LEADER@),
            );
            let first = first_invalid(key_prefix, target);
            &&& first is None <==> append && vote && pre_vote && snapshot && transfer
            &&& !append ==> first == Some(RPC_APPEND_ENTRIES@)
            &&& append && !vote ==> first == Some(RPC_VOTE@)
            &&& append && vote && !pre_vote ==> first == Some(RPC_PRE_VOTE@)
            &&& append && vote && pre_vote && !snapshot ==> first == Some(RPC_SNAPSHOT@)
            &&& append && vote && pre_vote && snapshot && !transfer ==> first == Some(
                RPC_TRANSFER_LEADER@,
            )
        }),
{
}

/// The keys of a node are those of its RPCs, each under its own name.
pub proof fn keys_belong_to_their_rpcs(keys: ZenohRpcKeys, key_prefix: Seq<char>, target: u64)
    requires
        keys.are_keys_of(key_prefix, target),
    ensures
        keys.append_entries@ == rpc_key(key_prefix, target, "append_entries"@),
        keys.vote@ == rpc_key(key_prefix, target, "vote"@),
        keys.pre_vote@ == rpc_key(key_prefix, target, "pre_vote"@),
        keys.snapshot@ == rpc_key(key_prefix, target, "snapshot"@),
        keys.transfer_leader@ == rpc_key(key_prefix, target, "transfer_leader"@),
{
}

/// A query that the node answered gives the answer; an answer that cannot be read is an error of the
/// network, and a query that was not sent or was refused an unreachable node, each with its reason.
pub proof fn answered_queries_give_their_answer<R>(
    n: ZenohNetwork,
    sent: SentQuery,
    answer: R,
    e: String,
)
    ensures
        n.query_result(sent, QueryEnd::Answered(Ok(answer))) == Ok::<R, RpcErrorView>(answer),
        n.query_result(sent, QueryEnd::<R>::Answered(Err(e))) == Err::<R, RpcErrorView>(
            RpcErrorView::Network(e@),
        ),
        n.query_result(sent, QueryEnd::<R>::NotSent(e)) == Err::<R, RpcErrorView>(
            RpcErrorView::Unreachable(e@),
        ),
        n.query_result(sent, QueryEnd::<R>::Refused(Some(e))) == Err::<R, RpcErrorView>(
            RpcErrorView::Unreachable(e@),
        ),
        n.query_result(sent, QueryEnd::<R>::Refused(None)) is Err,
        !(n.query_result(sent, QueryEnd::<R>::Refused(None))->Err_0 is Timeout),
{
}

/// A query that was closed is a timeout exactly if all of its time was up but for fifteen
/// milliseconds or less; the timeout names the node, what was asked and the time that was allowed.
/// Any other is an unreachable node.
pub proof fn closed_queries_time_out_at_their_end<R>(n: ZenohNetwork, sent: SentQuery)
    ensures
        ({
            let r = n.query_result(sent, QueryEnd::<R>::Closed);
            &&& sent.timeout.nanos - sent.elapsed.nanos <= 15_000_000 ==> (r matches Err(
                RpcErrorView::Timeout(t),
            ) && t.action == sent.action && t.id == n.target && t.target == n.target && t.timeout
                == sent.timeout)
            &&& sent.timeout.nanos - sent.elapsed.nanos > 15_000_000 ==> (r matches Err(
                RpcErrorView::Unreachable(_),
            ))
        }),
{
}

/// Each RPC is asked under its own key, as what it is.  A question whether a vote would be granted
/// travels as one, whatever the caller wrote into it.
pub proof fn asking_calls<P, N>(
    n: ZenohNetwork,
    append: AppendEntriesRequest<P>,
    append_query: RpcQuery<WireAppendEntriesReq<Vote, LogId, Entry<P>>>,
    vote: VoteRequest,
    vote_query: RpcQuery<WireVoteReq<Vote, LogId>>,
    v: Vote,
    snapshot: Snapshot<N, Vec<u8>>,
    snapshot_query: RpcQuery<WireSnapshotPayload<Vote, SnapshotMeta<N>>>,
    transfer: TransferLeaderRequest,
    transfer_query: RpcQuery<WireTransferLeaderReq<Vote, u64, LogId>>,
)
    ensures
        call_ensures(ZenohNetwork::append_entries::<P>, (&n, append), append_query)
            ==> *append_query.key == n.keys.append_entries && append_query.action is AppendEntries
            && append_query.request == WireAppendEntriesReq::<Vote, LogId, Entry<P>>::from_spec(
            append,
        ),
        call_ensures(ZenohNetwork::vote, (&n, vote), vote_query) ==> *vote_query.key == n.keys.vote
            && vote_query.action is Vote && vote_query.request == WireVoteReq::<
            Vote,
            LogId,
        >::from_spec(vote),
        call_ensures(ZenohNetwork::pre_vote, (&n, vote), vote_query) ==> *vote_query.key
            == n.keys.pre_vote && vote_query.action is Vote && vote_query.request == WireVoteReq::<
            Vote,
            LogId,
        >::from_spec(VoteRequest { is_pre_vote: true, ..vote }),
        call_ensures(ZenohNetwork::full_snapshot::<N>, (&n, v, snapshot), snapshot_query)
            ==> *snapshot_query.key == n.keys.snapshot && snapshot_query.action is InstallSnapshot
            && snapshot_query.request.vote == v && snapshot_query.request.meta == snapshot.meta
            && snapshot_query.request.data == snapshot.snapshot,
        call_ensures(ZenohNetwork::transfer_leader, (&n, transfer), transfer_query)
            ==> *transfer_query.key == n.keys.transfer_leader
            && transfer_query.action is TransferLeader && transfer_query.request
            == WireTransferLeaderReq::<Vote, u64, LogId>::from_spec(transfer),
{
}

/// What came back is what the caller gets: an answer as it was read, an error as it is.
pub proof fn answer_calls(
    append: Result<WireAppendEntriesResp<Vote, LogId>, RPCError>,
    appended: Result<AppendEntriesResponse, RPCError>,
    vote: Result<WireVoteResp<Vote, LogId>, RPCError>,
    voted: Result<VoteResponse, RPCError>,
    snapshot: Result<Result<WireSnapshotResp<Vote>, RPCError>, ReplicationClosed>,
    installed: Result<SnapshotResponse, StreamingError>,
    transfer: Result<Result<(), WireTransferLeaderErr<Vote, LogId>>, RPCError>,
    transferred: Result<Result<(), TransferLeaderError>, RPCError>,
)
    ensures
        call_ensures(ZenohNetwork::append_entries_answer, (append,), appended) ==> {
            &&& appended is Ok <==> append is Ok
            &&& append is Ok ==> appended->Ok_0 == AppendEntriesResponse::from_spec(append->Ok_0)
            &&& append is Err ==> appended->Err_0 == append->Err_0
        },
        call_ensures(ZenohNetwork::vote_answer, (vote,), voted) ==> {
            &&& voted is Ok <==> vote is Ok
            &&& vote is Ok ==> voted->Ok_0 == VoteResponse::from_spec(vote->Ok_0)
            &&& vote is Err ==> voted->Err_0 == vote->Err_0
        },
        call_ensures(ZenohNetwork::full_snapshot_answer, (snapshot,), installed) ==> {
            &&& snapshot matches Ok(Ok(w)) ==> installed == Ok::<SnapshotResponse, StreamingError>(
                SnapshotResponse::from_spec(w),
            )
            &&& snapshot matches Ok(Err(e)) ==> installed == Err::<SnapshotResponse, StreamingError>(
                StreamingError::RPC(e),
            )
            &&& snapshot matches Err(c) ==> installed == Err::<SnapshotResponse, StreamingError>(
                StreamingError::Closed(c),
            )
        },
        call_ensures(ZenohNetwork::transfer_leader_answer, (transfer,), transferred) ==> {
            &&& transferred is Err <==> transfer is Err
            &&& transfer is Err ==> transferred->Err_0 == transfer->Err_0
            &&& transfer matches Ok(Ok(_)) ==> transferred->Ok_0 is Ok
            &&& transfer matches Ok(Err(e)) ==> transferred->Ok_0 == Err::<(), TransferLeaderError>(
                TransferLeaderError::from_spec(e),
            )
        },
{
}

/// A client of a node has the keys of that node, and exists exactly if each of them is taken.
pub proof fn client_calls(
    f: ZenohNetworkFactory,
    target: u64,
    r: Result<ZenohNetwork, MessageError>,
    key_prefix: &str,
    keys: Result<ZenohRpcKeys, MessageError>,
    rpc: &str,
    reason: &str,
    e: MessageError,
)
    ensures
        call_ensures(ZenohNetworkFactory::try_new_client, (&f, target), r) ==> {
            &&& r is Ok <==> first_invalid(f.config_spec().key_prefix@, target) is None
            &&& r is Ok ==> r->Ok_0.target == target && r->Ok_0.keys.are_keys_of(
                f.config_spec().key_prefix@,
                target,
            ) && r->Ok_0.session == f.session_spec() && r->Ok_0.config.same(f.config_spec())
        },
        call_ensures(ZenohRpcKeys::try_new, (key_prefix, &target), keys) ==> {
            &&& keys is Ok <==> first_invalid(key_prefix@, target) is None
            &&& keys is Ok ==> keys->Ok_0.are_keys_of(key_prefix@, target)
            &&& keys is Err ==> exists|why: Seq<char>|
                keys->Err_0.message@ == "invalid key_expr for "@ + first_invalid(
                    key_prefix@,
                    target,
                )->0 + ": "@ + why
        },
        call_ensures(key_error, (rpc, reason), e) ==> e.message@ == "invalid key_expr for "@ + rpc@
            + ": "@ + reason@,
{
    if call_ensures(ZenohRpcKeys::try_new, (key_prefix, &target), keys) && keys is Err {
        let first = first_invalid(key_prefix@, target)->0;
        assert(tells_of(keys->Err_0.message@, first));
        let why = choose|why: Seq<char>| keys->Err_0.message@ == #[trigger] key_error_spec(first, why);
        assert(keys->Err_0.message@ == "invalid key_expr for "@ + first + ": "@ + why);
    }
}

} // verus!
