//! What other parts of a node tell its core.

use vstd::prelude::*;
use vstd::string::*;
use crate::errors::StorageError;
use crate::log_id::LogId;
use crate::message::VoteResponse;
use crate::storage::SnapshotMeta;
use crate::time::Instant;
use crate::type_config::RaftTypeConfig;
use crate::vote::{IOId, Vote};

verus! {

/// What the state machine answers to a command.
pub enum SmResponse<N> {
    /// A snapshot was built, unless there was none to build.
    BuildSnapshotDone(Option<SnapshotMeta<N>>),
    /// A snapshot was installed under a committed vote, up to a log id.
    InstallSnapshot { committed_vote: Vote, log_id: Option<LogId>, meta: Option<SnapshotMeta<N>> },
    /// Log entries were applied.
    Apply(ApplyResult),
}

/// The result of applying log entries to the state machine.
#[derive(Clone, Copy, Debug, PartialEq, Eq, Structural)]
pub struct ApplyResult {
    pub since: u64,
    pub end: u64,
    pub last_applied: LogId,
}

impl ApplyResult {
    /// `ApplyResult([<since>, <end>), last_applied=<log id>)`.
    pub open spec fn text(self) -> Seq<char> {
        "ApplyResult(["@ + crate::text::decimal(self.since as nat) + ", "@ + crate::text::decimal(
            self.end as nat,
        ) + "), last_applied="@ + self.last_applied.text() + ")"@
    }

    /// `ApplyResult([<since>, <end>), last_applied=<log id>)`.
    pub fn to_string(&self) -> (r: String)
        ensures
            r@ == self.text(),
    {
        let s = crate::text::u64_text(self.since);
        let e = crate::text::u64_text(self.end);
        let l = self.last_applied.to_string();
        "ApplyResult([".to_owned().concat(s.as_str()).concat(", ").concat(e.as_str()).concat(
            "), last_applied=",
        ).concat(l.as_str()).concat(")")
    }
}

/// What a replication has achieved: the last entry that matches, or the one that conflicts; or
/// why it failed.
#[derive(Clone, Copy, Debug, PartialEq, Eq, Structural)]
pub enum ReplicationResult {
    Matching(Option<LogId>),
    Conflict(LogId),
    Failed,
}

/// What other parts of a node tell its core.
pub enum Notification<C: RaftTypeConfig> {
    /// A node answered a request for its vote.
    VoteResponse { target: u64, resp: VoteResponse, candidate_vote: Vote },
    /// A node answered a request for its pre-vote.
    PreVoteResponse { target: u64, resp: VoteResponse, candidate_vote: Vote },
    /// A node answered with a higher vote.
    HigherVote { target: u64, higher: Vote, leader_vote: Vote },
    /// The store failed.
    StorageError { error: StorageError<C> },
    /// A write of the log or of the vote reached the disk.
    LocalIO { io_id: IOId },
    /// A replication made progress.
    ReplicationProgress {
        stream_id: u64,
        target: u64,
        result: ReplicationResult,
        inflight_id: Option<u64>,
    },
    /// A node acknowledged a heartbeat.
    HeartbeatProgress { stream_id: u64, sending_time: Instant, target: u64 },
    /// The state machine finished a command.
    StateMachine { result: Result<SmResponse<C::Node>, StorageError<C>> },
    /// Time passes.
    Tick { i: u64 },
    /// A waiting read may have waited long enough.
    PendingReadDeadlineReached,
}

/// The name of a notification.
#[derive(Debug, Clone, Copy, PartialEq, Eq, PartialOrd, Ord, Hash, Structural)]
pub enum NotificationName {
    VoteResponse,
    PreVoteResponse,
    HigherVote,
    StorageError,
    LocalIO,
    ReplicationProgress,
    HeartbeatProgress,
    StateMachine,
    Tick,
    PendingReadDeadlineReached,
}

impl NotificationName {
    /// How many names there are.
    pub const COUNT: usize = 10;

    /// The names in the order of their indexes.
    pub open spec fn names() -> Seq<NotificationName> {
        seq![
            NotificationName::VoteResponse,
            NotificationName::PreVoteResponse,
            NotificationName::HigherVote,
            NotificationName::StorageError,
            NotificationName::LocalIO,
            NotificationName::ReplicationProgress,
            NotificationName::HeartbeatProgress,
            NotificationName::StateMachine,
            NotificationName::Tick,
            NotificationName::PendingReadDeadlineReached,
        ]
    }

    /// The names in the order of their indexes.
    pub fn all() -> (r: Vec<NotificationName>)
        ensures
            r@ == Self::names(),
            r@.len() == Self::COUNT,
    {
        vec![
            NotificationName::VoteResponse,
            NotificationName::PreVoteResponse,
            NotificationName::HigherVote,
            NotificationName::StorageError,
            NotificationName::LocalIO,
            NotificationName::ReplicationProgress,
            NotificationName::HeartbeatProgress,
            NotificationName::StateMachine,
            NotificationName::Tick,
            NotificationName::PendingReadDeadlineReached,
        ]
    }

    /// The index of the name.
    pub open spec fn index_spec(self) -> int {
        match self {
            NotificationName::VoteResponse => 0,
            NotificationName::PreVoteResponse => 1,
            NotificationName::HigherVote => 2,
            NotificationName::StorageError => 3,
            NotificationName::LocalIO => 4,
            NotificationName::ReplicationProgress => 5,
            NotificationName::HeartbeatProgress => 6,
            NotificationName::StateMachine => 7,
            NotificationName::Tick => 8,
            NotificationName::PendingReadDeadlineReached => 9,
        }
    }

    /// The index of the name.
    pub fn index(self) -> (r: usize)
        ensures
            r == self.index_spec(),
            r < Self::COUNT,
    {
        match self {
            NotificationName::VoteResponse => 0,
            NotificationName::PreVoteResponse => 1,
            NotificationName::HigherVote => 2,
            NotificationName::StorageError => 3,
            NotificationName::LocalIO => 4,
            NotificationName::ReplicationProgress => 5,
            NotificationName::HeartbeatProgress => 6,
            NotificationName::StateMachine => 7,
            NotificationName::Tick => 8,
            NotificationName::PendingReadDeadlineReached => 9,
        }
    }

    /// The name as it is written.
    pub open spec fn text(self) -> Seq<char> {
        match self {
            NotificationName::VoteResponse => "VoteResponse"@,
            NotificationName::PreVoteResponse => "PreVoteResponse"@,
            NotificationName::HigherVote => "HigherVote"@,
            NotificationName::StorageError => "StorageError"@,
            NotificationName::LocalIO => "LocalIO"@,
            NotificationName::ReplicationProgress => "ReplicationProgress"@,
            NotificationName::HeartbeatProgress => "HeartbeatProgress"@,
            NotificationName::StateMachine => "StateMachine"@,
            NotificationName::Tick => "Tick"@,
            NotificationName::PendingReadDeadlineReached => "PendingReadDeadlineReached"@,
        }
    }

    /// The name as it is written.
    pub fn as_str(self) -> (r: &'static str)
        ensures
            r@ == self.text(),
    {
        match self {
            NotificationName::VoteResponse => "VoteResponse",
            NotificationName::PreVoteResponse => "PreVoteResponse",
            NotificationName::HigherVote => "HigherVote",
            NotificationName::StorageError => "StorageError",
            NotificationName::LocalIO => "LocalIO",
            NotificationName::ReplicationProgress => "ReplicationProgress",
            NotificationName::HeartbeatProgress => "HeartbeatProgress",
            NotificationName::StateMachine => "StateMachine",
            NotificationName::Tick => "Tick",
            NotificationName::PendingReadDeadlineReached => "PendingReadDeadlineReached",
        }
    }
}

/// The indexes of the names are dense: every name has one below the count and stands there in the
/// list, and two names share none.
pub proof fn notification_indexes_are_dense(a: NotificationName, b: NotificationName)
    ensures
        0 <= a.index_spec() < NotificationName::COUNT,
        NotificationName::names().len() == NotificationName::COUNT,
        NotificationName::names()[a.index_spec()] == a,
        a.index_spec() == b.index_spec() ==> a == b,
{
}

impl<C: RaftTypeConfig> Notification<C> {
    /// The name of the notification.
    pub open spec fn name_spec(self) -> NotificationName {
        match self {
            Notification::VoteResponse { .. } => NotificationName::VoteResponse,
            Notification::PreVoteResponse { .. } => NotificationName::PreVoteResponse,
            Notification::HigherVote { .. } => NotificationName::HigherVote,
            Notification::StorageError { .. } => NotificationName::StorageError,
            Notification::LocalIO { .. } => NotificationName::LocalIO,
            Notification::ReplicationProgress { .. } => NotificationName::ReplicationProgress,
            Notification::HeartbeatProgress { .. } => NotificationName::HeartbeatProgress,
            Notification::StateMachine { .. } => NotificationName::StateMachine,
            Notification::Tick { .. } => NotificationName::Tick,
            Notification::PendingReadDeadlineReached =>
            NotificationName::PendingReadDeadlineReached,
        }
    }

    /// The name of the notification.
    pub fn name(&self) -> (r: NotificationName)
        ensures
            r == self.name_spec(),
    {
        match self {
            Notification::VoteResponse { .. } => NotificationName::VoteResponse,
            Notification::PreVoteResponse { .. } => NotificationName::PreVoteResponse,
            Notification::HigherVote { .. } => NotificationName::HigherVote,
            Notification::StorageError { .. } => NotificationName::StorageError,
            Notification::LocalIO { .. } => NotificationName::LocalIO,
            Notification::ReplicationProgress { .. } => NotificationName::ReplicationProgress,
            Notification::HeartbeatProgress { .. } => NotificationName::HeartbeatProgress,
            Notification::StateMachine { .. } => NotificationName::StateMachine,
            Notification::Tick { .. } => NotificationName::Tick,
            Notification::PendingReadDeadlineReached =>
            NotificationName::PendingReadDeadlineReached,
        }
    }
}

/// The name of a notification is that of its kind.
pub proof fn notifications_have_their_names<C: RaftTypeConfig>(n: Notification<C>)
    ensures
        n.name_spec() == NotificationName::VoteResponse <==> n is VoteResponse,
        n.name_spec() == NotificationName::PreVoteResponse <==> n is PreVoteResponse,
        n.name_spec() == NotificationName::HigherVote <==> n is HigherVote,
        n.name_spec() == NotificationName::StorageError <==> n is StorageError,
        n.name_spec() == NotificationName::LocalIO <==> n is LocalIO,
        n.name_spec() == NotificationName::ReplicationProgress <==> n is ReplicationProgress,
        n.name_spec() == NotificationName::HeartbeatProgress <==> n is HeartbeatProgress,
        n.name_spec() == NotificationName::StateMachine <==> n is StateMachine,
        n.name_spec() == NotificationName::Tick <==> n is Tick,
        n.name_spec() == NotificationName::PendingReadDeadlineReached
            <==> n is PendingReadDeadlineReached,
{
}

} // verus!
