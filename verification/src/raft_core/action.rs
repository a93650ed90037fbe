//! What the core of a node asks for.

use vstd::prelude::*;
use crate::batch::Batch;
use crate::entry::Entry;
use crate::errors::{ClientWriteError, ForwardToLeader, InitializeError, LinearizableReadError};
use crate::log_id::LogId;
use crate::log_id;
use crate::membership::Membership;
use crate::message::{TransferLeaderRequest, VoteRequest, VoteResponse};
use crate::raft_core::heartbeat::HeartbeatEvent;
use crate::raft_core::notification::{Notification, ReplicationResult};
use crate::raft_core::pending_reads::Linearizer;
use crate::raft_core::state::RaftState;
use crate::storage::{Snapshot, SnapshotMeta};
use crate::time::Instant;
use crate::type_config::RaftTypeConfig;
use crate::vote::{IOId, Vote};

verus! {

impl IOId {
    /// The log id up to which the write goes.
    pub open spec fn upto(self) -> Option<LogId> {
        match self {
            IOId::Vote(_) => None,
            IOId::Log { log_id, .. } => log_id,
        }
    }

    /// Writes are ordered by their votes first, then by the log ids up to which they go.
    pub open spec fn at_most(self, other: IOId) -> bool {
        if self.vote_of() == other.vote_of() {
            log_id::opt_at_most(self.upto(), other.upto())
        } else {
            other.vote_of().exceeds(self.vote_of())
        }
    }

    /// Whether this write comes before `other` or is as far.
    pub fn is_at_most(&self, other: &IOId) -> (r: bool)
        ensures
            r == self.at_most(*other),
    {
        let a = match self {
            IOId::Vote(_) => None,
            IOId::Log { log_id, .. } => *log_id,
        };
        let b = match other {
            IOId::Vote(_) => None,
            IOId::Log { log_id, .. } => *log_id,
        };
        let v = self.to_app_vote();
        let w = other.to_app_vote();
        if v == w {
            log_id::opt_is_at_most(&a, &b)
        } else {
            w.is_greater_than(&v)
        }
    }
}

/// What has to happen before a command may run.
#[derive(Clone, Copy, Debug, PartialEq, Eq, Structural)]
pub enum Condition {
    /// A write has reached the disk.
    IOFlushed { io_id: IOId },
    /// A log entry has been applied.
    Applied { log_id: LogId },
    /// A snapshot covers a log entry.
    Snapshot { log_id: LogId },
}

impl Condition {
    /// Whether it has happened.
    pub open spec fn met<N>(self, state: RaftState<N>) -> bool {
        match self {
            Condition::IOFlushed { io_id } => match state.log_progress.flushed {
                Some(f) => io_id.at_most(f),
                None => false,
            },
            Condition::Applied { log_id } => log_id::opt_at_most(Some(log_id), state.io_applied),
            Condition::Snapshot { log_id } => log_id::opt_at_most(Some(log_id), state.io_snapshot),
        }
    }

    /// Whether it has happened.
    pub fn is_met<N>(&self, state: &RaftState<N>) -> (r: bool)
        ensures
            r == self.met(*state),
    {
        match self {
            Condition::IOFlushed { io_id } => match &state.log_progress.flushed {
                Some(f) => io_id.is_at_most(f),
                None => false,
            },
            Condition::Applied { log_id } => log_id::opt_is_at_most(
                &Some(*log_id),
                &state.io_applied,
            ),
            Condition::Snapshot { log_id } => log_id::opt_is_at_most(
                &Some(*log_id),
                &state.io_snapshot,
            ),
        }
    }
}

/// An answer that waits for its condition.
#[derive(Clone, Copy, Debug, PartialEq, Eq)]
pub enum Response {
    Vote(VoteResponse),
    Initialize(Result<(), InitializeError>),
}

/// What a metrics recorder is told.
#[derive(Clone, Copy, Debug, PartialEq, Eq, Structural)]
pub enum Recorded {
    WriteBatch(u64),
    AppendBatch(u64),
    ApplyBatch(u64),
    Vote,
    Append,
    Heartbeat,
}

/// What the core of a node asks for.
///
/// The actions of a handler are performed in their order.  Those on the store may fail; then the
/// rest is not performed and the node stops with the storage error.
pub enum CoreAction<C: RaftTypeConfig> {
    // Answers.
    ReplyRead { tx: u64, result: Result<Linearizer, LinearizableReadError<C::Node>> },
    FailWrite { tx: u64, error: ClientWriteError<C::Node> },
    ReturnPayload { payload: C::Payload, tx: u64 },
    RefuseRevert { tx: u64, error: ForwardToLeader<C::Node> },
    Respond { when: Option<Condition>, resp: Response, tx: u64 },
    RunWithState { req: u64 },
    // Calls of the protocol engine.
    LeaderAppend { payloads: Batch<C::Payload>, responders: Batch<Option<u64>> },
    HandleAppendEntries {
        vote: Vote,
        prev_log_id: Option<LogId>,
        entries: Vec<Entry<C::Payload>>,
        tx: u64,
    },
    UpdateCommitted { committed_vote: Vote, log_id: Option<LogId> },
    HandleVoteRequest { rpc: VoteRequest, tx: u64 },
    HandlePreVoteRequest { rpc: VoteRequest, tx: u64 },
    InstallSnapshot { vote: Vote, snapshot: Snapshot<C::Node, Vec<u8>>, tx: u64 },
    Initialize { membership: Membership<C::Node>, tx: u64 },
    Elect,
    PreElect,
    ElectByTransfer,
    ResetGreaterLog,
    DisableLease,
    TriggerSnapshot { at: Option<LogId> },
    TriggerPurgeLog { upto: u64 },
    TriggerTransferLeader { to: u64 },
    AllowNextRevert { to: u64, allow: bool, tx: u64 },
    RefreshServerState,
    HandleVoteResponse { target: u64, resp: VoteResponse },
    HandlePreVoteResponse { target: u64, resp: VoteResponse },
    UpdateVote { higher: Vote },
    UpdateLocalProgress { log_id: Option<LogId> },
    UpdateProgress {
        target: u64,
        stream_id: u64,
        result: ReplicationResult,
        inflight_id: Option<u64>,
    },
    UpdateLeaderClock { stream_id: u64, target: u64, sending_time: Instant },
    SnapshotBuilt { meta: Option<SnapshotMeta<C::Node>> },
    InitiateReplication,
    SendHeartbeat { bypass_min_interval: bool },
    // Progress of the writes.
    SubmitLog { io_id: IOId },
    FlushLog { io_id: IOId },
    SubmitApplied { log_id: LogId },
    FlushApplied { log_id: LogId },
    SubmitSnapshot { log_id: LogId },
    FlushSnapshot { log_id: LogId },
    UpdatePurged { upto: LogId },
    BroadcastAccepted { io_id: IOId },
    BroadcastSubmitted { io_id: IOId },
    BroadcastCommitted { log_id: LogId },
    // The store and the state machine.
    AppendLog { entries: Vec<Entry<C::Payload>>, io_id: IOId },
    SaveVote { vote: Vote },
    PurgeLog { upto: LogId },
    AfterPurge { upto: LogId },
    TruncateLog { after: Option<LogId> },
    AfterTruncate { after: Option<LogId> },
    SaveCommitted { committed: LogId },
    ApplyFrom { first_index: u64, last: LogId },
    SendToStateMachine { command: u64 },
    // Other nodes.
    BroadcastVote { vote_req: VoteRequest, pre_vote: bool },
    BroadcastTransferLeader { req: TransferLeaderRequest },
    SendHeartbeatTo { target: u64, event: HeartbeatEvent },
    Replicate { target: u64, request: u64 },
    TransmitSnapshot { target: u64, stream_id: u64, leader_vote: Vote, inflight_id: u64 },
    SpawnReplication { target: u64, stream_id: u64, leader_vote: Vote },
    CloseReplication { target: u64 },
    SpawnHeartbeatWorkers { leader_vote: Vote, close_old: bool },
    CloseHeartbeatWorkers,
    // The node itself.
    Notify { notification: Notification<C> },
    TickHeartbeat { now: Instant },
    SetReadDeadline { deadline: Option<Instant> },
    SendRespond { respond: u64 },
    Record { recorder: u64, what: Recorded },
}

/// Writes compare by their votes first, whatever they store; under one vote, by how far they store
/// the log.  The write of a vote stores no log.
pub proof fn later_votes_write_later(a: Vote, b: Vote, x: LogId, y: LogId)
    ensures
        ({
            let ax = IOId::Log { committed_vote: a, log_id: Some(x) };
            let ay = IOId::Log { committed_vote: a, log_id: Some(y) };
            let by = IOId::Log { committed_vote: b, log_id: Some(y) };
            &&& b.exceeds(a) ==> ax.at_most(by) && !by.at_most(ax)
            &&& ax.at_most(ay) <==> x.at_most(y)
            &&& IOId::Vote(a).at_most(ax) && !ax.at_most(IOId::Vote(a))
            &&& b.exceeds(a) ==> ax.at_most(IOId::Vote(b)) && !IOId::Vote(b).at_most(ax)
            &&& (IOId::Log { committed_vote: a, log_id: None }).at_most(ax)
        }),
{
}

/// A command waits until its write is on disk, its entry applied or its entry in a snapshot: each
/// counts once what is flushed, applied or in the snapshot has come as far, and not before there is
/// any.
pub proof fn conditions_look_at_their_own_progress<N>(state: RaftState<N>, io_id: IOId, log_id: LogId)
    ensures
        (Condition::IOFlushed { io_id }).met(state) <==> (state.log_progress.flushed matches Some(f)
            && io_id.at_most(f)),
        (Condition::Applied { log_id }).met(state) <==> (state.io_applied matches Some(a)
            && log_id.at_most(a)),
        (Condition::Snapshot { log_id }).met(state) <==> (state.io_snapshot matches Some(s)
            && log_id.at_most(s)),
{
}

} // verus!
