//! The messages of the RPCs as they are written on the wire.

use vstd::prelude::*;
use vstd::std_specs::convert::FromSpec;
use crate::entry::Entry;
use crate::log_id::LogId;
use crate::message::{
    AppendEntriesRequest,
    AppendEntriesResponse,
    SnapshotResponse,
    TransferLeaderError,
    TransferLeaderRequest,
    VoteRequest,
    VoteResponse,
};
use crate::storage::{Snapshot, SnapshotMeta};
use crate::vote::Vote;

verus! {

/// The last part of the key of an RPC that appends entries.
pub const RPC_APPEND_ENTRIES: &'static str = "append_entries";

/// The last part of the key of an RPC that asks for a vote.
pub const RPC_VOTE: &'static str = "vote";

/// The last part of the key of an RPC that asks whether a vote would be granted.
pub const RPC_PRE_VOTE: &'static str = "pre_vote";

/// The last part of the key of an RPC that sends a snapshot.
pub const RPC_SNAPSHOT: &'static str = "snapshot";

/// The last part of the key of an RPC that hands the leadership over.
pub const RPC_TRANSFER_LEADER: &'static str = "transfer_leader";

/// An [`AppendEntriesRequest`] on the wire.
#[derive(Clone, Debug, PartialEq, Eq)]
pub struct WireAppendEntriesReq<V, L, E> {
    pub vote: V,
    pub prev_log_id: Option<L>,
    pub entries: Vec<E>,
    pub leader_commit: Option<L>,
}

impl<P> From<AppendEntriesRequest<P>> for WireAppendEntriesReq<Vote, LogId, Entry<P>> {
    fn from(m: AppendEntriesRequest<P>) -> (r: WireAppendEntriesReq<Vote, LogId, Entry<P>>) {
        WireAppendEntriesReq {
            vote: m.vote,
            prev_log_id: m.prev_log_id,
            entries: m.entries,
            leader_commit: m.leader_commit,
        }
    }
}

impl<P> vstd::std_specs::convert::FromSpecImpl<AppendEntriesRequest<P>> for WireAppendEntriesReq<Vote, LogId, Entry<P>> {
    open spec fn obeys_from_spec() -> bool {
        true
    }

    open spec fn from_spec(m: AppendEntriesRequest<P>) -> WireAppendEntriesReq<Vote, LogId, Entry<P>> {
        WireAppendEntriesReq {
            vote: m.vote,
            prev_log_id: m.prev_log_id,
            entries: m.entries,
            leader_commit: m.leader_commit,
        }
    }
}

impl<P> From<WireAppendEntriesReq<Vote, LogId, Entry<P>>> for AppendEntriesRequest<P> {
    fn from(m: WireAppendEntriesReq<Vote, LogId, Entry<P>>) -> (r: AppendEntriesRequest<P>) {
        AppendEntriesRequest {
            vote: m.vote,
            prev_log_id: m.prev_log_id,
            entries: m.entries,
            leader_commit: m.leader_commit,
        }
    }
}

impl<P> vstd::std_specs::convert::FromSpecImpl<WireAppendEntriesReq<Vote, LogId, Entry<P>>> for AppendEntriesRequest<P> {
    open spec fn obeys_from_spec() -> bool {
        true
    }

    open spec fn from_spec(m: WireAppendEntriesReq<Vote, LogId, Entry<P>>) -> AppendEntriesRequest<P> {
        AppendEntriesRequest {
            vote: m.vote,
            prev_log_id: m.prev_log_id,
            entries: m.entries,
            leader_commit: m.leader_commit,
        }
    }
}

/// An [`AppendEntriesResponse`] on the wire.
#[derive(Clone, Copy, Debug, PartialEq, Eq)]
pub enum WireAppendEntriesResp<V, L> {
    Success,
    PartialSuccess(Option<L>),
    Conflict,
    HigherVote(V),
}

impl From<AppendEntriesResponse> for WireAppendEntriesResp<Vote, LogId> {
    fn from(m: AppendEntriesResponse) -> (r: WireAppendEntriesResp<Vote, LogId>) {
        match m {
            AppendEntriesResponse::Success => WireAppendEntriesResp::Success,
            AppendEntriesResponse::PartialSuccess(l) => WireAppendEntriesResp::PartialSuccess(l),
            AppendEntriesResponse::Conflict => WireAppendEntriesResp::Conflict,
            AppendEntriesResponse::HigherVote(v) => WireAppendEntriesResp::HigherVote(v),
        }
    }
}

impl vstd::std_specs::convert::FromSpecImpl<AppendEntriesResponse> for WireAppendEntriesResp<Vote, LogId> {
    open spec fn obeys_from_spec() -> bool {
        true
    }

    open spec fn from_spec(m: AppendEntriesResponse) -> WireAppendEntriesResp<Vote, LogId> {
        match m {
            AppendEntriesResponse::Success => WireAppendEntriesResp::Success,
            AppendEntriesResponse::PartialSuccess(l) => WireAppendEntriesResp::PartialSuccess(l),
            AppendEntriesResponse::Conflict => WireAppendEntriesResp::Conflict,
            AppendEntriesResponse::HigherVote(v) => WireAppendEntriesResp::HigherVote(v),
        }
    }
}

impl From<WireAppendEntriesResp<Vote, LogId>> for AppendEntriesResponse {
    fn from(m: WireAppendEntriesResp<Vote, LogId>) -> (r: AppendEntriesResponse) {
        match m {
            WireAppendEntriesResp::Success => AppendEntriesResponse::Success,
            WireAppendEntriesResp::PartialSuccess(l) => AppendEntriesResponse::PartialSuccess(l),
            WireAppendEntriesResp::Conflict => AppendEntriesResponse::Conflict,
            WireAppendEntriesResp::HigherVote(v) => AppendEntriesResponse::HigherVote(v),
        }
    }
}

impl vstd::std_specs::convert::FromSpecImpl<WireAppendEntriesResp<Vote, LogId>> for AppendEntriesResponse {
    open spec fn obeys_from_spec() -> bool {
        true
    }

    open spec fn from_spec(m: WireAppendEntriesResp<Vote, LogId>) -> AppendEntriesResponse {
        match m {
            WireAppendEntriesResp::Success => AppendEntriesResponse::Success,
            WireAppendEntriesResp::PartialSuccess(l) => AppendEntriesResponse::PartialSuccess(l),
            WireAppendEntriesResp::Conflict => AppendEntriesResponse::Conflict,
            WireAppendEntriesResp::HigherVote(v) => AppendEntriesResponse::HigherVote(v),
        }
    }
}

/// A [`VoteRequest`] on the wire.
#[derive(Clone, Copy, Debug, PartialEq, Eq)]
pub struct WireVoteReq<V, L> {
    pub vote: V,
    pub last_log_id: Option<L>,
    pub leadership_transfer: bool,
    pub is_pre_vote: bool,
}

impl From<VoteRequest> for WireVoteReq<Vote, LogId> {
    fn from(m: VoteRequest) -> (r: WireVoteReq<Vote, LogId>) {
        WireVoteReq {
            vote: m.vote,
            last_log_id: m.last_log_id,
            leadership_transfer: m.leadership_transfer,
            is_pre_vote: m.is_pre_vote,
        }
    }
}

impl vstd::std_specs::convert::FromSpecImpl<VoteRequest> for WireVoteReq<Vote, LogId> {
    open spec fn obeys_from_spec() -> bool {
        true
    }

    open spec fn from_spec(m: VoteRequest) -> WireVoteReq<Vote, LogId> {
        WireVoteReq {
            vote: m.vote,
            last_log_id: m.last_log_id,
            leadership_transfer: m.leadership_transfer,
            is_pre_vote: m.is_pre_vote,
        }
    }
}

impl From<WireVoteReq<Vote, LogId>> for VoteRequest {
    fn from(m: WireVoteReq<Vote, LogId>) -> (r: VoteRequest) {
        VoteRequest {
            vote: m.vote,
            last_log_id: m.last_log_id,
            leadership_transfer: m.leadership_transfer,
            is_pre_vote: m.is_pre_vote,
        }
    }
}

impl vstd::std_specs::convert::FromSpecImpl<WireVoteReq<Vote, LogId>> for VoteRequest {
    open spec fn obeys_from_spec() -> bool {
        true
    }

    open spec fn from_spec(m: WireVoteReq<Vote, LogId>) -> VoteRequest {
        VoteRequest {
            vote: m.vote,
            last_log_id: m.last_log_id,
            leadership_transfer: m.leadership_transfer,
            is_pre_vote: m.is_pre_vote,
        }
    }
}

impl WireVoteReq<Vote, LogId> {
    /// The request, as one that asks for a vote or only whether it would be granted, whatever the
    /// wire says of that.
    pub open spec fn as_vote_request(self, is_pre_vote: bool) -> VoteRequest {
        VoteRequest {
            vote: self.vote,
            last_log_id: self.last_log_id,
            leadership_transfer: self.leadership_transfer,
            is_pre_vote,
        }
    }

    /// The request, as one that asks for a vote or only whether it would be granted, whatever the
    /// wire says of that.
    pub fn into_vote_request(self, is_pre_vote: bool) -> (r: VoteRequest)
        ensures
            r == self.as_vote_request(is_pre_vote),
    {
        VoteRequest {
            vote: self.vote,
            last_log_id: self.last_log_id,
            leadership_transfer: self.leadership_transfer,
            is_pre_vote,
        }
    }
}

/// A [`VoteResponse`] on the wire.
#[derive(Clone, Copy, Debug, PartialEq, Eq)]
pub struct WireVoteResp<V, L> {
    pub vote: V,
    pub vote_granted: bool,
    pub last_log_id: Option<L>,
}

impl From<VoteResponse> for WireVoteResp<Vote, LogId> {
    fn from(m: VoteResponse) -> (r: WireVoteResp<Vote, LogId>) {
        WireVoteResp {
            vote: m.vote,
            vote_granted: m.vote_granted,
            last_log_id: m.last_log_id,
        }
    }
}

impl vstd::std_specs::convert::FromSpecImpl<VoteResponse> for WireVoteResp<Vote, LogId> {
    open spec fn obeys_from_spec() -> bool {
        true
    }

    open spec fn from_spec(m: VoteResponse) -> WireVoteResp<Vote, LogId> {
        WireVoteResp {
            vote: m.vote,
            vote_granted: m.vote_granted,
            last_log_id: m.last_log_id,
        }
    }
}

impl From<WireVoteResp<Vote, LogId>> for VoteResponse {
    fn from(m: WireVoteResp<Vote, LogId>) -> (r: VoteResponse) {
        VoteResponse {
            vote: m.vote,
            vote_granted: m.vote_granted,
            last_log_id: m.last_log_id,
        }
    }
}

impl vstd::std_specs::convert::FromSpecImpl<WireVoteResp<Vote, LogId>> for VoteResponse {
    open spec fn obeys_from_spec() -> bool {
        true
    }

    open spec fn from_spec(m: WireVoteResp<Vote, LogId>) -> VoteResponse {
        VoteResponse {
            vote: m.vote,
            vote_granted: m.vote_granted,
            last_log_id: m.last_log_id,
        }
    }
}

/// A [`SnapshotResponse`] on the wire.
#[derive(Clone, Copy, Debug, PartialEq, Eq)]
pub struct WireSnapshotResp<V> {
    pub vote: V,
}

impl From<SnapshotResponse> for WireSnapshotResp<Vote> {
    fn from(m: SnapshotResponse) -> (r: WireSnapshotResp<Vote>) {
        WireSnapshotResp { vote: m.vote }
    }
}

impl vstd::std_specs::convert::FromSpecImpl<SnapshotResponse> for WireSnapshotResp<Vote> {
    open spec fn obeys_from_spec() -> bool {
        true
    }

    open spec fn from_spec(m: SnapshotResponse) -> WireSnapshotResp<Vote> {
        WireSnapshotResp { vote: m.vote }
    }
}

impl From<WireSnapshotResp<Vote>> for SnapshotResponse {
    fn from(m: WireSnapshotResp<Vote>) -> (r: SnapshotResponse) {
        SnapshotResponse { vote: m.vote }
    }
}

impl vstd::std_specs::convert::FromSpecImpl<WireSnapshotResp<Vote>> for SnapshotResponse {
    open spec fn obeys_from_spec() -> bool {
        true
    }

    open spec fn from_spec(m: WireSnapshotResp<Vote>) -> SnapshotResponse {
        SnapshotResponse { vote: m.vote }
    }
}

/// A [`TransferLeaderRequest`] on the wire.
#[derive(Clone, Copy, Debug, PartialEq, Eq)]
pub struct WireTransferLeaderReq<V, N, L> {
    pub from_leader: V,
    pub to_node_id: N,
    pub last_log_id: Option<L>,
}

impl From<TransferLeaderRequest> for WireTransferLeaderReq<Vote, u64, LogId> {
    fn from(m: TransferLeaderRequest) -> (r: WireTransferLeaderReq<Vote, u64, LogId>) {
        WireTransferLeaderReq {
            from_leader: m.from_leader,
            to_node_id: m.to_node_id,
            last_log_id: m.last_log_id,
        }
    }
}

impl vstd::std_specs::convert::FromSpecImpl<TransferLeaderRequest> for WireTransferLeaderReq<Vote, u64, LogId> {
    open spec fn obeys_from_spec() -> bool {
        true
    }

    open spec fn from_spec(m: TransferLeaderRequest) -> WireTransferLeaderReq<Vote, u64, LogId> {
        WireTransferLeaderReq {
            from_leader: m.from_leader,
            to_node_id: m.to_node_id,
            last_log_id: m.last_log_id,
        }
    }
}

impl From<WireTransferLeaderReq<Vote, u64, LogId>> for TransferLeaderRequest {
    fn from(m: WireTransferLeaderReq<Vote, u64, LogId>) -> (r: TransferLeaderRequest) {
        TransferLeaderRequest {
            from_leader: m.from_leader,
            to_node_id: m.to_node_id,
            last_log_id: m.last_log_id,
        }
    }
}

impl vstd::std_specs::convert::FromSpecImpl<WireTransferLeaderReq<Vote, u64, LogId>> for TransferLeaderRequest {
    open spec fn obeys_from_spec() -> bool {
        true
    }

    open spec fn from_spec(m: WireTransferLeaderReq<Vote, u64, LogId>) -> TransferLeaderRequest {
        TransferLeaderRequest {
            from_leader: m.from_leader,
            to_node_id: m.to_node_id,
            last_log_id: m.last_log_id,
        }
    }
}

/// A [`TransferLeaderError`] on the wire.
#[derive(Clone, Copy, Debug, PartialEq, Eq)]
pub enum WireTransferLeaderErr<V, L> {
    VoteChanged { expected: V, actual: V },
    LogNotFlushed { expected: Option<L>, actual: Option<L> },
}

impl From<TransferLeaderError> for WireTransferLeaderErr<Vote, LogId> {
    fn from(m: TransferLeaderError) -> (r: WireTransferLeaderErr<Vote, LogId>) {
        match m {
            TransferLeaderError::VoteChanged { expected, actual } => {
                WireTransferLeaderErr::VoteChanged { expected, actual }
            },
            TransferLeaderError::LogNotFlushed { expected, actual } => {
                WireTransferLeaderErr::LogNotFlushed { expected, actual }
            },
        }
    }
}

impl vstd::std_specs::convert::FromSpecImpl<TransferLeaderError> for WireTransferLeaderErr<Vote, LogId> {
    open spec fn obeys_from_spec() -> bool {
        true
    }

    open spec fn from_spec(m: TransferLeaderError) -> WireTransferLeaderErr<Vote, LogId> {
        match m {
            TransferLeaderError::VoteChanged { expected, actual } => {
                WireTransferLeaderErr::VoteChanged { expected, actual }
            },
            TransferLeaderError::LogNotFlushed { expected, actual } => {
                WireTransferLeaderErr::LogNotFlushed { expected, actual }
            },
        }
    }
}

impl From<WireTransferLeaderErr<Vote, LogId>> for TransferLeaderError {
    fn from(m: WireTransferLeaderErr<Vote, LogId>) -> (r: TransferLeaderError) {
        match m {
            WireTransferLeaderErr::VoteChanged { expected, actual } => {
                TransferLeaderError::VoteChanged { expected, actual }
            },
            WireTransferLeaderErr::LogNotFlushed { expected, actual } => {
                TransferLeaderError::LogNotFlushed { expected, actual }
            },
        }
    }
}

impl vstd::std_specs::convert::FromSpecImpl<WireTransferLeaderErr<Vote, LogId>> for TransferLeaderError {
    open spec fn obeys_from_spec() -> bool {
        true
    }

    open spec fn from_spec(m: WireTransferLeaderErr<Vote, LogId>) -> TransferLeaderError {
        match m {
            WireTransferLeaderErr::VoteChanged { expected, actual } => {
                TransferLeaderError::VoteChanged { expected, actual }
            },
            WireTransferLeaderErr::LogNotFlushed { expected, actual } => {
                TransferLeaderError::LogNotFlushed { expected, actual }
            },
        }
    }
}

/// A snapshot and the vote of its sender on the wire.
#[derive(Clone, Debug, PartialEq, Eq)]
pub struct WireSnapshotPayload<V, M> {
    pub vote: V,
    pub meta: M,
    pub data: Vec<u8>,
}

impl<V, N> WireSnapshotPayload<V, SnapshotMeta<N>> {
    /// The payload of a snapshot.
    pub fn from_snapshot(vote: V, snapshot: Snapshot<N, Vec<u8>>) -> (r: Self)
        ensures
            r == (WireSnapshotPayload { vote, meta: snapshot.meta, data: snapshot.snapshot }),
    {
        WireSnapshotPayload { vote, meta: snapshot.meta, data: snapshot.snapshot }
    }

    /// The vote and the snapshot.
    pub fn into_snapshot(self) -> (r: (V, Snapshot<N, Vec<u8>>))
        ensures
            r.0 == self.vote,
            r.1 == (Snapshot { meta: self.meta, snapshot: self.data }),
    {
        (self.vote, Snapshot { meta: self.meta, snapshot: self.data })
    }
}

/// What is read from the wire is what was written: each message comes back unchanged.
pub proof fn messages_come_back<P>(
    append: AppendEntriesRequest<P>,
    appended: AppendEntriesResponse,
    vote: VoteRequest,
    voted: VoteResponse,
    installed: SnapshotResponse,
    transfer: TransferLeaderRequest,
    refused: TransferLeaderError,
)
    ensures
        AppendEntriesRequest::<P>::from_spec(
            WireAppendEntriesReq::<Vote, LogId, Entry<P>>::from_spec(append),
        ) == append,
        AppendEntriesResponse::from_spec(WireAppendEntriesResp::<Vote, LogId>::from_spec(appended))
            == appended,
        VoteRequest::from_spec(WireVoteReq::<Vote, LogId>::from_spec(vote)) == vote,
        VoteResponse::from_spec(WireVoteResp::<Vote, LogId>::from_spec(voted)) == voted,
        SnapshotResponse::from_spec(WireSnapshotResp::<Vote>::from_spec(installed)) == installed,
        TransferLeaderRequest::from_spec(
            WireTransferLeaderReq::<Vote, u64, LogId>::from_spec(transfer),
        ) == transfer,
        TransferLeaderError::from_spec(WireTransferLeaderErr::<Vote, LogId>::from_spec(refused))
            == refused,
{
}

/// Each part of a message stands on the wire under its own name, as it is.
pub proof fn parts_keep_their_names<P>(
    append: AppendEntriesRequest<P>,
    vote: VoteRequest,
    voted: VoteResponse,
    installed: SnapshotResponse,
    transfer: TransferLeaderRequest,
)
    ensures
        ({
            let w = WireAppendEntriesReq::<Vote, LogId, Entry<P>>::from_spec(append);
            &&& w.vote == append.vote
            &&& w.prev_log_id == append.prev_log_id
            &&& w.entries == append.entries
            &&& w.leader_commit == append.leader_commit
        }),
        ({
            let w = WireVoteReq::<Vote, LogId>::from_spec(vote);
            &&& w.vote == vote.vote
            &&& w.last_log_id == vote.last_log_id
            &&& w.leadership_transfer == vote.leadership_transfer
            &&& w.is_pre_vote == vote.is_pre_vote
        }),
        ({
            let w = WireVoteResp::<Vote, LogId>::from_spec(voted);
            &&& w.vote == voted.vote
            &&& w.vote_granted == voted.vote_granted
            &&& w.last_log_id == voted.last_log_id
        }),
        WireSnapshotResp::<Vote>::from_spec(installed).vote == installed.vote,
        ({
            let w = WireTransferLeaderReq::<Vote, u64, LogId>::from_spec(transfer);
            &&& w.from_leader == transfer.from_leader
            &&& w.to_node_id == transfer.to_node_id
            &&& w.last_log_id == transfer.last_log_id
        }),
{
}

/// Each answer stands on the wire as what it is, with what was expected apart from what was found.
pub proof fn answers_keep_their_kind(
    stored: Option<LogId>,
    higher: Vote,
    expected: Vote,
    actual: Vote,
    wanted: Option<LogId>,
    got: Option<LogId>,
)
    ensures
        WireAppendEntriesResp::<Vote, LogId>::from_spec(AppendEntriesResponse::Success) is Success,
        WireAppendEntriesResp::<Vote, LogId>::from_spec(AppendEntriesResponse::Conflict) is Conflict,
        WireAppendEntriesResp::<Vote, LogId>::from_spec(
            AppendEntriesResponse::PartialSuccess(stored),
        ) == WireAppendEntriesResp::<Vote, LogId>::PartialSuccess(stored),
        WireAppendEntriesResp::<Vote, LogId>::from_spec(AppendEntriesResponse::HigherVote(higher))
            == WireAppendEntriesResp::<Vote, LogId>::HigherVote(higher),
        WireTransferLeaderErr::<Vote, LogId>::from_spec(
            TransferLeaderError::VoteChanged { expected, actual },
        ) == (WireTransferLeaderErr::<Vote, LogId>::VoteChanged { expected, actual }),
        WireTransferLeaderErr::<Vote, LogId>::from_spec(
            TransferLeaderError::LogNotFlushed { expected: wanted, actual: got },
        ) == (WireTransferLeaderErr::<Vote, LogId>::LogNotFlushed {
            expected: wanted,
            actual: got,
        }),
{
}

/// A request that came as a question, or not, keeps everything but that, which is as it is taken.
pub proof fn questions_keep_their_vote(w: WireVoteReq<Vote, LogId>, is_pre_vote: bool)
    ensures
        w.as_vote_request(is_pre_vote).vote == w.vote,
        w.as_vote_request(is_pre_vote).last_log_id == w.last_log_id,
        w.as_vote_request(is_pre_vote).leadership_transfer == w.leadership_transfer,
        w.as_vote_request(is_pre_vote).is_pre_vote == is_pre_vote,
{
}

/// The names under which RPCs are sent.
pub proof fn rpcs_have_their_names()
    ensures
        RPC_APPEND_ENTRIES@ == "append_entries"@,
        RPC_VOTE@ == "vote"@,
        RPC_PRE_VOTE@ == "pre_vote"@,
        RPC_SNAPSHOT@ == "snapshot"@,
        RPC_TRANSFER_LEADER@ == "transfer_leader"@,
{
}

} // verus!
