//! Errors.

pub mod storage_error;
pub mod storage_io_result;

pub use storage_error::{ErrorSubject, ErrorVerb, StorageError, ToStorageResult};
pub use storage_io_result::StorageIOResult;

use vstd::prelude::*;
use vstd::string::*;
use crate::log_id::LogId;
use crate::node::Node;
use crate::text;
use crate::time::{Duration, Instant};
use crate::type_config::RaftTypeConfig;
use crate::vote::Vote;

verus! {

/// The cause that a storage error wraps.
pub trait ErrorSource: Sized {
    /// The message of the cause.
    spec fn message(&self) -> Seq<char>;

    /// A cause of its message.
    fn from_message(message: &str) -> (r: Self)
        ensures
            r.message() == message@,
    ;

    /// The message of the cause.
    fn to_message(&self) -> (r: String)
        ensures
            r@ == self.message(),
    ;
}

/// A cause that is nothing but its message.
#[derive(Clone, Debug, PartialEq, Eq)]
pub struct MessageError {
    pub message: String,
}

impl MessageError {
    /// A cause of its message.
    pub fn error(message: &str) -> (r: MessageError)
        ensures
            r.message@ == message@,
    {
        MessageError { message: message.to_owned() }
    }
}

impl ErrorSource for MessageError {
    open spec fn message(&self) -> Seq<char> {
        self.message@
    }

    fn from_message(message: &str) -> (r: MessageError) {
        MessageError::error(message)
    }

    fn to_message(&self) -> (r: String) {
        self.message.as_str().to_owned()
    }
}

/// A request must be sent to the leader, if it is known.
#[derive(Clone, Debug, PartialEq, Eq)]
pub struct ForwardToLeader<N> {
    pub leader_id: Option<u64>,
    pub leader_node: Option<N>,
}

impl<N: Node> ForwardToLeader<N> {
    /// No leader is known.
    pub open spec fn nowhere() -> ForwardToLeader<N> {
        ForwardToLeader { leader_id: None, leader_node: None }
    }

    /// No leader is known.
    pub fn empty() -> (r: ForwardToLeader<N>)
        ensures
            r == Self::nowhere(),
    {
        ForwardToLeader { leader_id: None, leader_node: None }
    }

    /// The leader is known.
    pub fn new(leader_id: u64, node: N) -> (r: ForwardToLeader<N>)
        ensures
            r == (ForwardToLeader { leader_id: Some(leader_id), leader_node: Some(node) }),
    {
        ForwardToLeader { leader_id: Some(leader_id), leader_node: Some(node) }
    }

    /// A copy of the error.
    pub fn duplicate(&self) -> (r: ForwardToLeader<N>)
        ensures
            r == *self,
    {
        ForwardToLeader {
            leader_id: self.leader_id,
            leader_node: match &self.leader_node {
                Some(n) => Some(n.duplicate()),
                None => None,
            },
        }
    }
}

/// No quorum has acknowledged the leader after the given time.
#[derive(Clone, Copy, Debug, PartialEq, Eq, Structural)]
pub struct QuorumNotEnough {
    pub min_quorum_acked_at: Instant,
}

/// Why a linearizable read failed.
#[derive(Clone, Debug, PartialEq, Eq)]
pub enum LinearizableReadError<N> {
    /// This node is not the leader.
    ForwardToLeader(ForwardToLeader<N>),
    /// A quorum is not available.
    QuorumNotEnough(QuorumNotEnough),
}

impl<N: Node> LinearizableReadError<N> {
    /// The leader to forward the request to, if that is the error.
    pub fn forward_to_leader(&self) -> (r: Option<&ForwardToLeader<N>>)
        ensures
            match self {
                LinearizableReadError::ForwardToLeader(f) => r == Some(f),
                LinearizableReadError::QuorumNotEnough(_) => r is None,
            },
    {
        match self {
            LinearizableReadError::ForwardToLeader(f) => Some(f),
            _ => None,
        }
    }
}

impl<N> From<ForwardToLeader<N>> for LinearizableReadError<N> {
    fn from(e: ForwardToLeader<N>) -> (r: LinearizableReadError<N>) {
        LinearizableReadError::ForwardToLeader(e)
    }
}

impl<N> vstd::std_specs::convert::FromSpecImpl<ForwardToLeader<N>> for LinearizableReadError<N> {
    open spec fn obeys_from_spec() -> bool {
        true
    }

    open spec fn from_spec(e: ForwardToLeader<N>) -> LinearizableReadError<N> {
        LinearizableReadError::ForwardToLeader(e)
    }
}

impl<N> From<QuorumNotEnough> for LinearizableReadError<N> {
    fn from(e: QuorumNotEnough) -> (r: LinearizableReadError<N>) {
        LinearizableReadError::QuorumNotEnough(e)
    }
}

impl<N> vstd::std_specs::convert::FromSpecImpl<QuorumNotEnough> for LinearizableReadError<N> {
    open spec fn obeys_from_spec() -> bool {
        true
    }

    open spec fn from_spec(e: QuorumNotEnough) -> LinearizableReadError<N> {
        LinearizableReadError::QuorumNotEnough(e)
    }
}

/// Why a change of the members was refused.
#[derive(Clone, Copy, Debug, PartialEq, Eq, Structural)]
pub enum ChangeMembershipError {
    /// The previous membership is not committed yet.
    InProgress { committed: Option<LogId>, membership_log_id: Option<LogId> },
    /// The change leaves a voter set empty.
    EmptyMembership,
    /// The change makes a node that is not known a voter.
    LearnerNotFound { node_id: u64 },
    /// The leader has not committed a log entry of its own term.
    UncommittedLeaderLog { committed: Option<LogId>, leader_log_id: LogId },
}

/// The condition under which a caller proposed a membership does not hold.
#[derive(Clone, Copy, Debug, PartialEq, Eq, Structural)]
pub enum PreconditionFailed {
    /// The last membership stands at another log id than the caller took it to.
    LastMembershipLogId { expected: Option<LogId>, actual: Option<LogId> },
}

/// Why a write failed.
#[derive(Clone, Debug, PartialEq, Eq)]
pub enum ClientWriteError<N> {
    /// This node may not accept writes.
    ForwardToLeader(ForwardToLeader<N>),
    /// The change of the members was refused.
    ChangeMembershipError(ChangeMembershipError),
    /// A condition of the caller does not hold.
    PreconditionFailed(PreconditionFailed),
}

/// Why a cluster was not initialized.
#[derive(Clone, Copy, Debug, PartialEq, Eq, Structural)]
pub enum InitializeError {
    /// The node already holds a log or has voted.
    NotAllowed { last_log_id: Option<LogId>, vote: Vote },
    /// The node is not one of the members.
    NotInMembers { node_id: u64 },
}

/// Why a node stopped.
pub enum Fatal<C: RaftTypeConfig> {
    /// The store failed.
    StorageError(StorageError<C>),
    /// The node was shut down.
    Stopped,
}

/// Another node answered with a higher vote.
#[derive(Clone, Copy, Debug, PartialEq, Eq, Structural)]
pub struct HigherVote {
    pub higher: Vote,
    pub sender_vote: Vote,
}

impl HigherVote {
    /// `seen a higher vote: <higher> GT mine: <sender vote>`.
    pub open spec fn text(self) -> Seq<char> {
        "seen a higher vote: "@ + self.higher.text() + " GT mine: "@ + self.sender_vote.text()
    }

    /// `seen a higher vote: <higher> GT mine: <sender vote>`.
    pub fn to_string(&self) -> (r: String)
        ensures
            r@ == self.text(),
    {
        let h = self.higher.to_string();
        let s = self.sender_vote.to_string();
        "seen a higher vote: ".to_owned().concat(h.as_str()).concat(" GT mine: ").concat(s.as_str())
    }
}

/// What was being done.
#[derive(Clone, Debug, PartialEq, Eq)]
pub struct Operation {
    pub description: String,
}

/// A node is not in the cluster.
#[derive(Clone, Debug, PartialEq, Eq)]
pub struct NodeNotFound {
    /// The node that was not found.
    pub node_id: u64,
    /// What was being done when the node was not found.
    pub operation: Operation,
}

impl NodeNotFound {
    /// An error of its parts.
    pub fn new(node_id: u64, operation: Operation) -> (r: NodeNotFound)
        ensures
            r == (NodeNotFound { node_id, operation }),
    {
        NodeNotFound { node_id, operation }
    }

    /// `Node <id> not found when: (<operation>)`.
    pub open spec fn text(self) -> Seq<char> {
        "Node "@ + text::decimal(self.node_id as nat) + " not found when: ("@
            + self.operation.description@ + ")"@
    }

    /// `Node <id> not found when: (<operation>)`.
    pub fn to_string(&self) -> (r: String)
        ensures
            r@ == self.text(),
    {
        let n = text::u64_text(self.node_id);
        "Node ".to_owned().concat(n.as_str()).concat(" not found when: (").concat(
            self.operation.description.as_str(),
        ).concat(")")
    }
}

/// What an RPC does.
#[derive(Clone, Copy, Debug, PartialEq, Eq, Structural)]
pub enum RPCTypes {
    Vote,
    AppendEntries,
    InstallSnapshot,
    TransferLeader,
}

/// No answer came in time.
#[derive(Clone, Copy, Debug, PartialEq, Eq, Structural)]
pub struct Timeout {
    pub action: RPCTypes,
    pub id: u64,
    pub target: u64,
    pub timeout: Duration,
}

/// Why an RPC failed.
#[derive(Clone, Debug, PartialEq, Eq)]
pub enum RPCError {
    /// No answer came in time.
    Timeout(Timeout),
    /// The target cannot be reached; the sender should wait before it tries again.
    Unreachable(String),
    /// The answer could not be read.
    Network(String),
}

/// A replication was closed.
#[derive(Clone, Debug, PartialEq, Eq)]
pub struct ReplicationClosed {
    pub reason: String,
}

/// Why a snapshot was not delivered.
#[derive(Clone, Debug, PartialEq, Eq)]
pub enum StreamingError {
    /// The sender gave up.
    Closed(ReplicationClosed),
    /// The RPC failed.
    RPC(RPCError),
}

/// Why a replication failed.
pub enum ReplicationError<C: RaftTypeConfig> {
    HigherVote(HigherVote),
    Closed(ReplicationClosed),
    StorageError(StorageError<C>),
    RPCError(RPCError),
}

/// A deadline has elapsed.
#[derive(Clone, Copy, Debug, PartialEq, Eq, Structural)]
pub struct Elapsed;

impl Elapsed {
    /// `deadline has elapsed`.
    pub fn to_string(&self) -> (r: String)
        ensures
            r@ == "deadline has elapsed"@,
    {
        "deadline has elapsed".to_owned()
    }
}

} // verus!
