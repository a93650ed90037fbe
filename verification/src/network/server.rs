//! The server of a node: which RPC a query is for, and what it is answered.

use vstd::prelude::*;
use vstd::std_specs::convert::FromSpec;
use vstd::string::*;
use crate::entry::Entry;
use crate::log_id::LogId;
use crate::message::{
    AppendEntriesRequest,
    AppendEntriesResponse,
    SnapshotResponse,
    TransferLeaderError,
    TransferLeaderRequest,
    VoteRequest,
    VoteResponse,
};
use crate::network::client;
use crate::network::wire::{
    RPC_APPEND_ENTRIES,
    RPC_PRE_VOTE,
    RPC_SNAPSHOT,
    RPC_TRANSFER_LEADER,
    RPC_VOTE,
    WireAppendEntriesReq,
    WireAppendEntriesResp,
    WireSnapshotPayload,
    WireSnapshotResp,
    WireTransferLeaderErr,
    WireTransferLeaderReq,
    WireVoteReq,
    WireVoteResp,
};
use crate::storage::{Snapshot, SnapshotMeta};
use crate::strs;
use crate::text;
use crate::vote::Vote;

verus! {

/// The answer to a query that is for no RPC.
pub const ERR_UNKNOWN_ROUTE: &'static str = "unknown RPC route";

/// An RPC of a node.
#[derive(Clone, Copy, Debug, PartialEq, Eq, Structural)]
pub enum RpcRoute {
    AppendEntries,
    Vote,
    PreVote,
    Snapshot,
    TransferLeader,
}

impl RpcRoute {
    /// The name of the RPC, which is the last part of its key.
    pub open spec fn name_spec(self) -> Seq<char> {
        match self {
            RpcRoute::AppendEntries => RPC_APPEND_ENTRIES@,
            RpcRoute::Vote => RPC_VOTE@,
            RpcRoute::PreVote => RPC_PRE_VOTE@,
            RpcRoute::Snapshot => RPC_SNAPSHOT@,
            RpcRoute::TransferLeader => RPC_TRANSFER_LEADER@,
        }
    }

    /// The name of the RPC, which is the last part of its key.
    pub fn name(&self) -> (r: &'static str)
        ensures
            r@ == self.name_spec(),
    {
        match self {
            RpcRoute::AppendEntries => RPC_APPEND_ENTRIES,
            RpcRoute::Vote => RPC_VOTE,
            RpcRoute::PreVote => RPC_PRE_VOTE,
            RpcRoute::Snapshot => RPC_SNAPSHOT,
            RpcRoute::TransferLeader => RPC_TRANSFER_LEADER,
        }
    }
}

/// The RPC with a name.
pub open spec fn route_named(name: Seq<char>) -> Option<RpcRoute> {
    if name == RPC_APPEND_ENTRIES@ {
        Some(RpcRoute::AppendEntries)
    } else if name == RPC_VOTE@ {
        Some(RpcRoute::Vote)
    } else if name == RPC_PRE_VOTE@ {
        Some(RpcRoute::PreVote)
    } else if name == RPC_SNAPSHOT@ {
        Some(RpcRoute::Snapshot)
    } else if name == RPC_TRANSFER_LEADER@ {
        Some(RpcRoute::TransferLeader)
    } else {
        None
    }
}

/// The RPC that a key is for: the one named by what follows the last `/`.
pub open spec fn route_spec(key: Seq<char>) -> Option<RpcRoute> {
    match strs::rsplit_spec(key) {
        Some(name) => route_named(name),
        None => None,
    }
}

/// The server of a node.
pub struct ZenohRaftServer;

impl ZenohRaftServer {
    /// `<prefix>/<node>/**`, which matches the keys of a node.
    pub open spec fn selector_spec(key_prefix: Seq<char>, node_id: u64) -> Seq<char> {
        key_prefix + "/"@ + text::decimal(node_id as nat) + "/**"@
    }

    /// `<prefix>/<node>/**`, which matches the keys of a node.
    pub fn selector(key_prefix: &str, node_id: u64) -> (r: String)
        ensures
            r@ == Self::selector_spec(key_prefix@, node_id),
    {
        let n = text::u64_text(node_id);
        key_prefix.to_owned().concat("/").concat(n.as_str()).concat("/**")
    }

    /// The RPC that a query is for, or the error that it is answered.
    pub fn dispatch_query(key: &str) -> (r: Result<RpcRoute, &'static str>)
        ensures
            match route_spec(key@) {
                Some(route) => r == Ok::<RpcRoute, &'static str>(route),
                None => r matches Err(e) && e@ == ERR_UNKNOWN_ROUTE@,
            },
    {
        let name = match strs::rsplit(key) {
            Some(name) => name,
            None => return Err(ERR_UNKNOWN_ROUTE),
        };
        if same_text(name, RPC_APPEND_ENTRIES) {
            Ok(RpcRoute::AppendEntries)
        } else if same_text(name, RPC_VOTE) {
            Ok(RpcRoute::Vote)
        } else if same_text(name, RPC_PRE_VOTE) {
            Ok(RpcRoute::PreVote)
        } else if same_text(name, RPC_SNAPSHOT) {
            Ok(RpcRoute::Snapshot)
        } else if same_text(name, RPC_TRANSFER_LEADER) {
            Ok(RpcRoute::TransferLeader)
        } else {
            Err(ERR_UNKNOWN_ROUTE)
        }
    }

    /// The answer to a request that cannot be read.
    pub open spec fn decode_error_spec(e: Seq<char>) -> Seq<char> {
        "decode error: "@ + e
    }

    /// The request that was read, or the error that the query is answered.
    pub fn decode_or_reply_err<T>(decoded: Result<T, String>) -> (r: Result<T, String>)
        ensures
            match decoded {
                Ok(t) => r == Ok::<T, String>(t),
                Err(e) => r matches Err(m) && m@ == Self::decode_error_spec(e@),
            },
    {
        match decoded {
            Ok(t) => Ok(t),
            Err(e) => Err("decode error: ".to_owned().concat(e.as_str())),
        }
    }

    /// `<rpc> error: <error>`.
    pub open spec fn rpc_error_spec(rpc: Seq<char>, e: Seq<char>) -> Seq<char> {
        rpc + " error: "@ + e
    }

    fn reply_rpc_err(rpc: &str, e: &str) -> (r: String)
        ensures
            r@ == Self::rpc_error_spec(rpc@, e@),
    {
        rpc.to_owned().concat(" error: ").concat(e)
    }

    /// What the node is asked for entries to append.
    pub fn append_entries_call<P>(
        decoded: Result<WireAppendEntriesReq<Vote, LogId, Entry<P>>, String>,
    ) -> (r: Result<AppendEntriesRequest<P>, String>)
        ensures
            match decoded {
                Ok(w) => r == Ok::<_, String>(AppendEntriesRequest::<P>::from_spec(w)),
                Err(e) => r matches Err(m) && m@ == Self::decode_error_spec(e@),
            },
    {
        match Self::decode_or_reply_err(decoded) {
            Ok(w) => Ok(AppendEntriesRequest::from(w)),
            Err(e) => Err(e),
        }
    }

    /// What a query with entries to append is answered.
    pub fn append_entries_reply(done: Result<AppendEntriesResponse, String>) -> (r: Result<
        WireAppendEntriesResp<Vote, LogId>,
        String,
    >)
        ensures
            match done {
                Ok(resp) => r == Ok::<_, String>(
                    WireAppendEntriesResp::<Vote, LogId>::from_spec(resp),
                ),
                Err(e) => r matches Err(m) && m@ == Self::rpc_error_spec(RPC_APPEND_ENTRIES@, e@),
            },
    {
        match done {
            Ok(resp) => Ok(WireAppendEntriesResp::from(resp)),
            Err(e) => Err(Self::reply_rpc_err(RPC_APPEND_ENTRIES, e.as_str())),
        }
    }

    /// What the node is asked for a vote.
    pub fn vote_call(decoded: Result<WireVoteReq<Vote, LogId>, String>) -> (r: Result<
        VoteRequest,
        String,
    >)
        ensures
            match decoded {
                Ok(w) => r == Ok::<_, String>(VoteRequest::from_spec(w)),
                Err(e) => r matches Err(m) && m@ == Self::decode_error_spec(e@),
            },
    {
        match Self::decode_or_reply_err(decoded) {
            Ok(w) => Ok(VoteRequest::from(w)),
            Err(e) => Err(e),
        }
    }

    /// What the node is asked for whether a vote would be granted: such a request never asks for
    /// the vote itself.
    pub fn pre_vote_call(decoded: Result<WireVoteReq<Vote, LogId>, String>) -> (r: Result<
        VoteRequest,
        String,
    >)
        ensures
            match decoded {
                Ok(w) => r == Ok::<_, String>(w.as_vote_request(true)),
                Err(e) => r matches Err(m) && m@ == Self::decode_error_spec(e@),
            },
    {
        match Self::decode_or_reply_err(decoded) {
            Ok(w) => Ok(w.into_vote_request(true)),
            Err(e) => Err(e),
        }
    }

    /// What a query for a vote is answered, or for whether it would be granted.
    pub fn vote_reply(pre_vote: bool, done: Result<VoteResponse, String>) -> (r: Result<
        WireVoteResp<Vote, LogId>,
        String,
    >)
        ensures
            match done {
                Ok(resp) => r == Ok::<_, String>(WireVoteResp::<Vote, LogId>::from_spec(resp)),
                Err(e) => r matches Err(m) && m@ == Self::rpc_error_spec(
                    if pre_vote {
                        RPC_PRE_VOTE@
                    } else {
                        RPC_VOTE@
                    },
                    e@,
                ),
            },
    {
        match done {
            Ok(resp) => Ok(WireVoteResp::from(resp)),
            Err(e) => {
                let rpc = if pre_vote {
                    RPC_PRE_VOTE
                } else {
                    RPC_VOTE
                };
                Err(Self::reply_rpc_err(rpc, e.as_str()))
            },
        }
    }

    /// What the node is asked for a snapshot.
    pub fn snapshot_call<N>(
        decoded: Result<WireSnapshotPayload<Vote, SnapshotMeta<N>>, String>,
    ) -> (r: Result<(Vote, Snapshot<N, Vec<u8>>), String>)
        ensures
            match decoded {
                Ok(w) => r matches Ok(c) && c.0 == w.vote && c.1 == (Snapshot {
                    meta: w.meta,
                    snapshot: w.data,
                }),
                Err(e) => r matches Err(m) && m@ == Self::decode_error_spec(e@),
            },
    {
        match Self::decode_or_reply_err(decoded) {
            Ok(w) => Ok(w.into_snapshot()),
            Err(e) => Err(e),
        }
    }

    /// What a query with a snapshot is answered.
    pub fn snapshot_reply(done: Result<SnapshotResponse, String>) -> (r: Result<
        WireSnapshotResp<Vote>,
        String,
    >)
        ensures
            match done {
                Ok(resp) => r == Ok::<_, String>(WireSnapshotResp::<Vote>::from_spec(resp)),
                Err(e) => r matches Err(m) && m@ == Self::rpc_error_spec(RPC_SNAPSHOT@, e@),
            },
    {
        match done {
            Ok(resp) => Ok(WireSnapshotResp::from(resp)),
            Err(e) => Err(Self::reply_rpc_err(RPC_SNAPSHOT, e.as_str())),
        }
    }

    /// What the node is asked for a leadership to take over.
    pub fn transfer_leader_call(
        decoded: Result<WireTransferLeaderReq<Vote, u64, LogId>, String>,
    ) -> (r: Result<TransferLeaderRequest, String>)
        ensures
            match decoded {
                Ok(w) => r == Ok::<_, String>(TransferLeaderRequest::from_spec(w)),
                Err(e) => r matches Err(m) && m@ == Self::decode_error_spec(e@),
            },
    {
        match Self::decode_or_reply_err(decoded) {
            Ok(w) => Ok(TransferLeaderRequest::from(w)),
            Err(e) => Err(e),
        }
    }

    /// What a query with a leadership to take over is answered.
    pub fn transfer_leader_reply(done: Result<Result<(), TransferLeaderError>, String>) -> (r:
        Result<Result<(), WireTransferLeaderErr<Vote, LogId>>, String>)
        ensures
            match done {
                Ok(Ok(_)) => r matches Ok(Ok(_)),
                Ok(Err(refused)) => r == Ok::<_, String>(
                    Err::<(), _>(WireTransferLeaderErr::<Vote, LogId>::from_spec(refused)),
                ),
                Err(e) => r matches Err(m) && m@ == Self::rpc_error_spec(RPC_TRANSFER_LEADER@, e@),
            },
    {
        match done {
            Ok(Ok(_)) => Ok(Ok(())),
            Ok(Err(refused)) => Ok(Err(WireTransferLeaderErr::from(refused))),
            Err(e) => Err(Self::reply_rpc_err(RPC_TRANSFER_LEADER, e.as_str())),
        }
    }
}

fn same_text(a: &str, b: &str) -> (r: bool)
    ensures
        r == (a@ == b@),
{
    if a.unicode_len() != b.unicode_len() {
        return false;
    }
    let r = strs::starts_with(a, b);
    proof {
        assert(a@.subrange(0, b@.len() as int) =~= a@);
    }
    r
}

/// The names of the RPCs are all different and hold no `/`.
proof fn lemma_names(route: RpcRoute)
    ensures
        route_named(route.name_spec()) == Some(route),
        !route.name_spec().contains('/'),
{
    reveal_strlit("append_entries");
    reveal_strlit("vote");
    reveal_strlit("pre_vote");
    reveal_strlit("snapshot");
    reveal_strlit("transfer_leader");
    assert(RPC_APPEND_ENTRIES@.len() == 14);
    assert(RPC_VOTE@.len() == 4);
    assert(RPC_PRE_VOTE@.len() == 8);
    assert(RPC_SNAPSHOT@.len() == 8);
    assert(RPC_TRANSFER_LEADER@.len() == 15);
    assert(RPC_PRE_VOTE@[0] == 'p');
    assert(RPC_SNAPSHOT@[0] == 's');
}

/// The server takes a query for the RPC that the client sent it for, whatever the prefix of the
/// cluster and the node.
pub proof fn server_routes_client_keys(key_prefix: Seq<char>, target: u64, route: RpcRoute)
    ensures
        route_spec(client::rpc_key(key_prefix, target, route.name_spec())) == Some(route),
{
    reveal_strlit("/");
    lemma_names(route);
    let head = key_prefix + "/"@ + text::decimal(target as nat);
    strs::rsplit_of_last_part(head, route.name_spec());
    assert("/"@ =~= seq!['/']);
    assert(client::rpc_key(key_prefix, target, route.name_spec()) =~= head + seq!['/']
        + route.name_spec());
}

/// The key that a server listens at covers the keys of its node: each is that key with the name of
/// the RPC in place of `**`.
pub proof fn selector_covers_keys(key_prefix: Seq<char>, node_id: u64, route: RpcRoute)
    ensures
        ({
            let selector = ZenohRaftServer::selector_spec(key_prefix, node_id);
            client::rpc_key(key_prefix, node_id, route.name_spec()) == selector.take(
                selector.len() - 2,
            ) + route.name_spec()
        }),
{
    reveal_strlit("/");
    reveal_strlit("/**");
    let selector = ZenohRaftServer::selector_spec(key_prefix, node_id);
    assert(selector.take(selector.len() - 2) =~= key_prefix + "/"@ + text::decimal(node_id as nat)
        + "/"@);
}

/// A question whether a vote would be granted reaches the node as such a question, with the vote and
/// the log of the candidate.
pub proof fn pre_vote_stays_a_pre_vote(rpc: VoteRequest)
    ensures
        WireVoteReq::<Vote, LogId>::from_spec(
            VoteRequest { is_pre_vote: true, ..rpc },
        ).as_vote_request(true) == (VoteRequest { is_pre_vote: true, ..rpc }),
{
}

/// A route is taken by its own name only: every other name has none.
pub proof fn unknown_names_have_no_route(name: Seq<char>, route: RpcRoute)
    ensures
        route_named(name) == Some(route) <==> name == route.name_spec(),
        RpcRoute::AppendEntries.name_spec() == "append_entries"@,
        RpcRoute::Vote.name_spec() == "vote"@,
        RpcRoute::PreVote.name_spec() == "pre_vote"@,
        RpcRoute::Snapshot.name_spec() == "snapshot"@,
        RpcRoute::TransferLeader.name_spec() == "transfer_leader"@,
{
    lemma_names(route);
    lemma_names(RpcRoute::AppendEntries);
    lemma_names(RpcRoute::Vote);
    lemma_names(RpcRoute::PreVote);
    lemma_names(RpcRoute::Snapshot);
    lemma_names(RpcRoute::TransferLeader);
}

/// A key has a route exactly if what follows its last slash is the name of an RPC.
pub proof fn keys_are_routed_by_their_last_part(head: Seq<char>, name: Seq<char>)
    requires
        !name.contains('/'),
    ensures
        route_spec(head + seq!['/'] + name) == route_named(name),
        route_spec(name) is None,
{
    strs::rsplit_of_last_part(head, name);
}

/// The selector of a server is the prefix of the cluster and the node, with everything below them.
pub proof fn selectors_name_their_node(key_prefix: Seq<char>, a: u64, b: u64)
    ensures
        ZenohRaftServer::selector_spec(key_prefix, a).take(key_prefix.len() as int) == key_prefix,
        ZenohRaftServer::selector_spec(key_prefix, a) == ZenohRaftServer::selector_spec(
            key_prefix,
            b,
        ) ==> a == b,
{
    reveal_strlit("/");
    reveal_strlit("/**");
    let x = text::decimal(a as nat);
    let y = text::decimal(b as nat);
    let s = ZenohRaftServer::selector_spec(key_prefix, a);
    let t = ZenohRaftServer::selector_spec(key_prefix, b);
    let n = key_prefix.len() as int + 1;
    assert(s.take(key_prefix.len() as int) =~= key_prefix);
    assert(s.subrange(n, n + x.len()) =~= x);
    assert(t.subrange(n, n + y.len()) =~= y);
    assert(s.len() == n + x.len() + 3);
    assert(t.len() == n + y.len() + 3);
    if s == t {
        text::decimal_is_injective(a as nat, b as nat);
    }
}

/// A query is taken for the RPC whose name follows the last slash of its key, and refused where there is
/// none.
pub proof fn dispatch_calls(
    key: &str,
    r: Result<RpcRoute, &'static str>,
    head: Seq<char>,
    route: RpcRoute,
)
    requires
        call_ensures(ZenohRaftServer::dispatch_query, (key,), r),
    ensures
        key@ == head + seq!['/'] + route.name_spec() ==> r == Ok::<RpcRoute, &'static str>(route),
        !key@.contains('/') ==> r is Err,
        r is Ok <==> route_spec(key@) is Some,
        r is Err ==> r->Err_0@ == "unknown RPC route"@,
{
    lemma_names(route);
    strs::rsplit_of_last_part(head, route.name_spec());
    if !key@.contains('/') {
        strs::rsplit_of_last_part(head, key@);
    }
}

/// A request that was read reaches the node as it was sent; one that was not is answered with the
/// reason.  A question whether a vote would be granted never asks for the vote itself.
pub proof fn call_calls<P, N>(
    append: Result<WireAppendEntriesReq<Vote, LogId, Entry<P>>, String>,
    append_call: Result<AppendEntriesRequest<P>, String>,
    vote: Result<WireVoteReq<Vote, LogId>, String>,
    vote_call: Result<VoteRequest, String>,
    snapshot: Result<WireSnapshotPayload<Vote, SnapshotMeta<N>>, String>,
    snapshot_call: Result<(Vote, Snapshot<N, Vec<u8>>), String>,
    transfer: Result<WireTransferLeaderReq<Vote, u64, LogId>, String>,
    transfer_call: Result<TransferLeaderRequest, String>,
)
    ensures
        call_ensures(ZenohRaftServer::append_entries_call::<P>, (append,), append_call) ==> {
            &&& append_call is Ok <==> append is Ok
            &&& append is Ok ==> append_call->Ok_0 == AppendEntriesRequest::<P>::from_spec(
                append->Ok_0,
            )
            &&& append is Err ==> append_call->Err_0@ == "decode error: "@ + append->Err_0@
        },
        call_ensures(ZenohRaftServer::vote_call, (vote,), vote_call) ==> {
            &&& vote_call is Ok <==> vote is Ok
            &&& vote is Ok ==> vote_call->Ok_0 == VoteRequest::from_spec(vote->Ok_0)
            &&& vote is Err ==> vote_call->Err_0@ == "decode error: "@ + vote->Err_0@
        },
        call_ensures(ZenohRaftServer::pre_vote_call, (vote,), vote_call) ==> {
            &&& vote_call is Ok <==> vote is Ok
            &&& vote is Ok ==> vote_call->Ok_0.is_pre_vote
            &&& vote is Ok ==> vote_call->Ok_0 == vote->Ok_0.as_vote_request(true)
            &&& vote is Err ==> vote_call->Err_0@ == "decode error: "@ + vote->Err_0@
        },
        call_ensures(ZenohRaftServer::snapshot_call::<N>, (snapshot,), snapshot_call) ==> {
            &&& snapshot_call is Ok <==> snapshot is Ok
            &&& snapshot is Ok ==> snapshot_call->Ok_0.0 == snapshot->Ok_0.vote
                && snapshot_call->Ok_0.1.meta == snapshot->Ok_0.meta
                && snapshot_call->Ok_0.1.snapshot == snapshot->Ok_0.data
            &&& snapshot is Err ==> snapshot_call->Err_0@ == "decode error: "@ + snapshot->Err_0@
        },
        call_ensures(ZenohRaftServer::transfer_leader_call, (transfer,), transfer_call) ==> {
            &&& transfer_call is Ok <==> transfer is Ok
            &&& transfer is Ok ==> transfer_call->Ok_0 == TransferLeaderRequest::from_spec(
                transfer->Ok_0,
            )
            &&& transfer is Err ==> transfer_call->Err_0@ == "decode error: "@ + transfer->Err_0@
        },
{
}

/// What the node answered is sent back as it is; an error is sent back under the name of its RPC.
pub proof fn reply_calls(
    append: Result<AppendEntriesResponse, String>,
    append_reply: Result<WireAppendEntriesResp<Vote, LogId>, String>,
    pre_vote: bool,
    vote: Result<VoteResponse, String>,
    vote_reply: Result<WireVoteResp<Vote, LogId>, String>,
    snapshot: Result<SnapshotResponse, String>,
    snapshot_reply: Result<WireSnapshotResp<Vote>, String>,
    transfer: Result<Result<(), TransferLeaderError>, String>,
    transfer_reply: Result<Result<(), WireTransferLeaderErr<Vote, LogId>>, String>,
)
    ensures
        call_ensures(ZenohRaftServer::append_entries_reply, (append,), append_reply) ==> {
            &&& append_reply is Ok <==> append is Ok
            &&& append is Ok ==> append_reply->Ok_0 == WireAppendEntriesResp::<
                Vote,
                LogId,
            >::from_spec(append->Ok_0)
            &&& append is Err ==> append_reply->Err_0@ == "append_entries"@ + " error: "@
                + append->Err_0@
        },
        call_ensures(ZenohRaftServer::vote_reply, (pre_vote, vote), vote_reply) ==> {
            &&& vote_reply is Ok <==> vote is Ok
            &&& vote is Ok ==> vote_reply->Ok_0 == WireVoteResp::<Vote, LogId>::from_spec(
                vote->Ok_0,
            )
            &&& vote is Err && pre_vote ==> vote_reply->Err_0@ == "pre_vote"@ + " error: "@
                + vote->Err_0@
            &&& vote is Err && !pre_vote ==> vote_reply->Err_0@ == "vote"@ + " error: "@
                + vote->Err_0@
        },
        call_ensures(ZenohRaftServer::snapshot_reply, (snapshot,), snapshot_reply) ==> {
            &&& snapshot_reply is Ok <==> snapshot is Ok
            &&& snapshot is Ok ==> snapshot_reply->Ok_0 == WireSnapshotResp::<Vote>::from_spec(
                snapshot->Ok_0,
            )
            &&& snapshot is Err ==> snapshot_reply->Err_0@ == "snapshot"@ + " error: "@
                + snapshot->Err_0@
        },
        call_ensures(ZenohRaftServer::transfer_leader_reply, (transfer,), transfer_reply) ==> {
            &&& transfer_reply is Ok <==> transfer is Ok
            &&& transfer matches Ok(Ok(_)) ==> transfer_reply->Ok_0 is Ok
            &&& transfer matches Ok(Err(e)) ==> transfer_reply->Ok_0 == Err::<
                (),
                WireTransferLeaderErr<Vote, LogId>,
            >(WireTransferLeaderErr::<Vote, LogId>::from_spec(e))
            &&& transfer is Err ==> transfer_reply->Err_0@ == "transfer_leader"@ + " error: "@
                + transfer->Err_0@
        },
{
}

} // verus!
