//! Messages between nodes, and between an application and its node.

use vstd::prelude::*;
use vstd::string::*;
use crate::entry::Entry;
use crate::log_id::LogId;
use crate::log_id;
use crate::membership::{ChangeMembers, Membership};
use crate::raft_core::state::Precondition;
use crate::text;
use crate::time::Duration;
use crate::type_config::RaftTypeConfig;
use crate::vote::Vote;

verus! {

/// A candidate asks for a vote.
#[derive(Clone, Copy, Debug, PartialEq, Eq, Structural)]
pub struct VoteRequest {
    /// The vote that the candidate asks for.
    pub vote: Vote,
    /// The last log entry of the candidate.
    pub last_log_id: Option<LogId>,
    /// Whether the current leader authorized the election, so that its lease does not matter.
    pub leadership_transfer: bool,
    /// Whether the request only asks whether the vote would be granted.
    pub is_pre_vote: bool,
}

impl VoteRequest {
    /// A request for a vote.
    pub fn new(vote: Vote, last_log_id: Option<LogId>) -> (r: VoteRequest)
        ensures
            r == (VoteRequest {
                vote,
                last_log_id,
                leadership_transfer: false,
                is_pre_vote: false,
            }),
    {
        VoteRequest { vote, last_log_id, leadership_transfer: false, is_pre_vote: false }
    }

    /// A request that only asks whether the vote would be granted.
    pub fn new_pre_vote(vote: Vote, last_log_id: Option<LogId>) -> (r: VoteRequest)
        ensures
            r == (VoteRequest { vote, last_log_id, leadership_transfer: false, is_pre_vote: true }),
    {
        VoteRequest { vote, last_log_id, leadership_transfer: false, is_pre_vote: true }
    }

    /// `{vote:<vote>, last_log:<log id>, leadership_transfer:<bool>, is_pre_vote:<bool>}`.
    pub open spec fn text(self) -> Seq<char> {
        "{vote:"@ + self.vote.text() + ", last_log:"@ + log_id::opt_log_id_spec(self.last_log_id)
            + ", leadership_transfer:"@ + text::bool_spec(self.leadership_transfer)
            + ", is_pre_vote:"@ + text::bool_spec(self.is_pre_vote) + "}"@
    }

    /// `{vote:<vote>, last_log:<log id>, leadership_transfer:<bool>, is_pre_vote:<bool>}`.
    pub fn to_string(&self) -> (r: String)
        ensures
            r@ == self.text(),
    {
        let v = self.vote.to_string();
        let l = log_id::opt_log_id_text(&self.last_log_id);
        "{vote:".to_owned().concat(v.as_str()).concat(", last_log:").concat(l.as_str()).concat(
            ", leadership_transfer:",
        ).concat(text::bool_text(self.leadership_transfer)).concat(", is_pre_vote:").concat(
            text::bool_text(self.is_pre_vote),
        ).concat("}")
    }
}

/// The answer to a [`VoteRequest`].
#[derive(Clone, Copy, Debug, PartialEq, Eq, Structural)]
pub struct VoteResponse {
    /// The vote of the answering node after it handled the request.
    ///
    /// That it equals the vote of the candidate does not mean that the vote is granted: it may
    /// have been updated when a previous leader saw a higher vote.
    pub vote: Vote,
    /// Whether the answering node accepted and saved the vote.
    pub vote_granted: bool,
    /// The last log entry of the answering node.
    pub last_log_id: Option<LogId>,
}

impl VoteResponse {
    /// An answer of its parts.
    pub fn new(vote: Vote, last_log_id: Option<LogId>, granted: bool) -> (r: VoteResponse)
        ensures
            r == (VoteResponse { vote, vote_granted: granted, last_log_id }),
    {
        VoteResponse { vote, vote_granted: granted, last_log_id }
    }

    /// The answer of a network that cannot ask for pre-votes: every pre-vote is granted, so that
    /// elections go on as without pre-votes.
    pub fn pre_vote_without_network(rpc: VoteRequest) -> (r: VoteResponse)
        ensures
            r == (VoteResponse { vote: rpc.vote, vote_granted: true, last_log_id: None }),
            r.granted_to(rpc.vote),
    {
        VoteResponse::new(rpc.vote, None, true)
    }

    /// Whether the answer grants the vote of a candidate.
    pub open spec fn granted_to(self, candidate_vote: Vote) -> bool {
        self.vote_granted && self.vote == candidate_vote
    }

    /// Whether the answer grants the vote of a candidate.
    pub fn is_granted_to(&self, candidate_vote: &Vote) -> (r: bool)
        ensures
            r == self.granted_to(*candidate_vote),
    {
        self.vote_granted && self.vote == *candidate_vote
    }

    /// `{<vote>, last_log:Some("<log id>")}` or `{<vote>, last_log:None}`.
    pub open spec fn text(self) -> Seq<char> {
        "{"@ + self.vote.text() + ", last_log:"@ + (match self.last_log_id {
            Some(l) => "Some(\""@ + l.text() + "\")"@,
            None => "None"@,
        }) + "}"@
    }

    /// `{<vote>, last_log:Some("<log id>")}` or `{<vote>, last_log:None}`.
    pub fn to_string(&self) -> (r: String)
        ensures
            r@ == self.text(),
    {
        let v = self.vote.to_string();
        let l = match self.last_log_id {
            Some(l) => "Some(\"".to_owned().concat(l.to_string().as_str()).concat("\")"),
            None => "None".to_owned(),
        };
        "{".to_owned().concat(v.as_str()).concat(", last_log:").concat(l.as_str()).concat("}")
    }
}

/// A leader sends log entries.
pub struct AppendEntriesRequest<P> {
    pub vote: Vote,
    pub prev_log_id: Option<LogId>,
    pub entries: Vec<Entry<P>>,
    pub leader_commit: Option<LogId>,
}

/// The answer to an [`AppendEntriesRequest`].
#[derive(Clone, Copy, Debug, PartialEq, Eq, Structural)]
pub enum AppendEntriesResponse {
    /// Every entry is stored.
    Success,
    /// The entries up to the given one are stored.
    PartialSuccess(Option<LogId>),
    /// The previous entry is not there.
    Conflict,
    /// The answering node has seen a higher vote.
    HigherVote(Vote),
}

/// The answer to a snapshot.
#[derive(Clone, Copy, Debug, PartialEq, Eq, Structural)]
pub struct SnapshotResponse {
    pub vote: Vote,
}

/// A leader hands its leadership over.
#[derive(Clone, Copy, Debug, PartialEq, Eq, Structural)]
pub struct TransferLeaderRequest {
    pub from_leader: Vote,
    pub to_node_id: u64,
    pub last_log_id: Option<LogId>,
}

impl TransferLeaderRequest {
    /// A request of its parts.
    pub fn new(from_leader: Vote, to_node_id: u64, last_log_id: Option<LogId>) -> (r:
        TransferLeaderRequest)
        ensures
            r == (TransferLeaderRequest { from_leader, to_node_id, last_log_id }),
    {
        TransferLeaderRequest { from_leader, to_node_id, last_log_id }
    }
}

/// Why a leadership was not taken over.
#[derive(Clone, Copy, Debug, PartialEq, Eq, Structural)]
pub enum TransferLeaderError {
    /// The vote is not that of the leader any more.
    VoteChanged { expected: Vote, actual: Vote },
    /// The log is not up to date.
    LogNotFlushed { expected: Option<LogId>, actual: Option<LogId> },
}

/// Why log entries were not appended.
#[derive(Clone, Copy, Debug, PartialEq, Eq, Structural)]
pub enum StreamAppendError {
    /// The entry before them is not there.
    Conflict(LogId),
    /// The node has seen a higher vote.
    HigherVote(Vote),
}

/// How a stream of appends goes on after an answer.
#[derive(Clone, Copy, Debug, PartialEq, Eq, Structural)]
pub enum StreamStep {
    /// Hand out the answer and wait for the next one.
    Continue,
    /// Hand out the answer and end.
    Finish,
}

/// A stream of appends goes on after a success, and ends with a conflict, with a higher vote and
/// when the node has stopped (`None`).
pub open spec fn stream_append_spec(
    answer: Option<Result<Option<LogId>, StreamAppendError>>,
) -> StreamStep {
    match answer {
        Some(Ok(_)) => StreamStep::Continue,
        _ => StreamStep::Finish,
    }
}

/// A stream of appends goes on after a success, and ends with a conflict, with a higher vote and
/// when the node has stopped (`None`).
pub fn stream_append(answer: &Option<Result<Option<LogId>, StreamAppendError>>) -> (r: StreamStep)
    ensures
        r == stream_append_spec(*answer),
{
    match answer {
        Some(Ok(_)) => StreamStep::Continue,
        _ => StreamStep::Finish,
    }
}

/// How many appends may be under way at a time.
pub const PIPELINE_BUFFER_SIZE: usize = 64;

/// The response to a write.
pub struct ClientWriteResponse<C: RaftTypeConfig> {
    /// The entry that was applied.
    pub log_id: LogId,
    /// The response of the state machine.
    pub data: C::R,
    /// The membership, if the entry holds one.
    pub membership: Option<Membership<C::Node>>,
}

impl<C: RaftTypeConfig> ClientWriteResponse<C> {
    /// The entry that was applied.
    pub fn log_id(&self) -> (r: &LogId)
        ensures
            *r == self.log_id,
    {
        &self.log_id
    }

    /// The response of the state machine.
    pub fn response(&self) -> (r: &C::R)
        ensures
            *r == self.data,
    {
        &self.data
    }

    /// The membership, if the entry holds one.
    pub fn membership(&self) -> (r: &Option<Membership<C::Node>>)
        ensures
            *r == self.membership,
    {
        &self.membership
    }

    /// `ClientWriteResponse{log_id:<log id>, membership:<membership>}`, where `membership_text` is
    /// the text of the membership, if there is one.
    pub open spec fn text(self, membership_text: Seq<char>) -> Seq<char> {
        "ClientWriteResponse{log_id:"@ + self.log_id.text() + ", membership:"@ + (
        if self.membership is Some {
            membership_text
        } else {
            "None"@
        }) + "}"@
    }

    /// `ClientWriteResponse{log_id:<log id>, membership:<membership>}`, where `membership_text` is
    /// the text of the membership, if there is one.
    pub fn to_string_with(&self, membership_text: &str) -> (r: String)
        ensures
            r@ == self.text(membership_text@),
    {
        let l = self.log_id.to_string();
        let m = match &self.membership {
            Some(_) => membership_text,
            None => "None",
        };
        "ClientWriteResponse{log_id:".to_owned().concat(l.as_str()).concat(", membership:").concat(
            m,
        ).concat("}")
    }
}

/// The responses to the entries of a membership change.
pub struct ChangeMembershipOutcome<C: RaftTypeConfig> {
    /// The response to the joint membership, if the change needed one.
    pub joint: Option<ClientWriteResponse<C>>,
    /// The response to the uniform membership, which every completed change writes.
    pub uniform: ClientWriteResponse<C>,
}

/// A membership change with the payloads that an application gives it.
pub struct ChangeMembershipRequest<C: RaftTypeConfig> {
    pub members: ChangeMembers<C::Node>,
    pub retain_removed_as_learners: bool,
    pub preconditions: Vec<Precondition>,
    pub payload: Option<(C::Payload, C::Payload)>,
}

impl<C: RaftTypeConfig> ChangeMembershipRequest<C> {
    /// A request that uses blank payloads and has no preconditions.
    pub fn new(members: ChangeMembers<C::Node>, retain: bool) -> (r: Self)
        ensures
            r.members == members,
            r.retain_removed_as_learners == retain,
            r.preconditions@ == Seq::<Precondition>::empty(),
            r.payload is None,
    {
        ChangeMembershipRequest {
            members,
            retain_removed_as_learners: retain,
            preconditions: Vec::new(),
            payload: None,
        }
    }

    /// Use payloads for the joint and for the uniform membership.
    pub fn with_payload(self, joint_payload: C::Payload, uniform_payload: C::Payload) -> (r: Self)
        ensures
            r == (ChangeMembershipRequest {
                payload: Some((joint_payload, uniform_payload)),
                ..self
            }),
    {
        ChangeMembershipRequest {
            members: self.members,
            retain_removed_as_learners: self.retain_removed_as_learners,
            preconditions: self.preconditions,
            payload: Some((joint_payload, uniform_payload)),
        }
    }

    /// Guard the first proposal with preconditions.
    pub fn with_preconditions(self, preconditions: Vec<Precondition>) -> (r: Self)
        ensures
            r == (ChangeMembershipRequest { preconditions, ..self }),
    {
        ChangeMembershipRequest {
            members: self.members,
            retain_removed_as_learners: self.retain_removed_as_learners,
            preconditions,
            payload: self.payload,
        }
    }

    /// The parts of the request.
    pub fn into_parts(self) -> (r: (
        ChangeMembers<C::Node>,
        bool,
        Vec<Precondition>,
        Option<(C::Payload, C::Payload)>,
    ))
        ensures
            r == (self.members, self.retain_removed_as_learners, self.preconditions, self.payload),
    {
        (self.members, self.retain_removed_as_learners, self.preconditions, self.payload)
    }
}

/// How a linearizable read confirms the leadership.
#[derive(Clone, Copy, Debug, PartialEq, Eq, Structural)]
pub struct LinearizerOption {
    /// How old an acknowledgement by a quorum may be; the leader lease unless given.  With zero, a
    /// new round of heartbeats has to be acknowledged.
    pub max_quorum_ack_age: Option<Duration>,
    /// How long the read may wait; the leader lease unless given.
    pub wait_timeout: Option<Duration>,
    /// Whether to send a heartbeat where the acknowledgement is too old.
    pub heartbeat_if_quorum_ack_stale: bool,
}

impl LinearizerOption {
    /// How old an acknowledgement by a quorum may be.
    pub open spec fn max_age(self, leader_lease: Duration) -> Duration {
        match self.max_quorum_ack_age {
            Some(d) => d,
            None => leader_lease,
        }
    }

    /// How old an acknowledgement by a quorum may be.
    pub fn effective_max_quorum_ack_age(&self, leader_lease: Duration) -> (r: Duration)
        ensures
            r == self.max_age(leader_lease),
    {
        match self.max_quorum_ack_age {
            Some(d) => d,
            None => leader_lease,
        }
    }

    /// How long the read may wait.
    pub open spec fn max_wait(self, leader_lease: Duration) -> Duration {
        match self.wait_timeout {
            Some(d) => d,
            None => leader_lease,
        }
    }

    /// How long the read may wait.
    pub fn effective_wait_timeout(&self, leader_lease: Duration) -> (r: Duration)
        ensures
            r == self.max_wait(leader_lease),
    {
        match self.wait_timeout {
            Some(d) => d,
            None => leader_lease,
        }
    }
}

/// A vote is granted only by an answer that says so, under the very vote that was asked for.
pub proof fn grants_name_their_vote(resp: VoteResponse, candidate_vote: Vote)
    ensures
        resp.granted_to(candidate_vote) ==> resp.vote_granted && resp.vote.leader_id
            == candidate_vote.leader_id && resp.vote.committed == candidate_vote.committed,
        resp.vote_granted ==> resp.granted_to(resp.vote),
{
}

/// A stream of appends goes on after a success only.
pub proof fn failed_append_ends_the_stream(stored: Option<LogId>, e: StreamAppendError)
    ensures
        stream_append_spec(Some(Ok(stored))) == StreamStep::Continue,
        stream_append_spec(Some(Err(e))) == StreamStep::Finish,
        stream_append_spec(None) == StreamStep::Finish,
{
}

/// The age and the wait that a read allows are the given ones, each for itself; where one is not
/// given it is the lease of the leader.
pub proof fn read_limits_default_to_the_lease(o: LinearizerOption, lease: Duration)
    ensures
        o.max_quorum_ack_age matches Some(age) ==> o.max_age(lease) == age,
        o.max_quorum_ack_age is None ==> o.max_age(lease) == lease,
        o.wait_timeout matches Some(wait) ==> o.max_wait(lease) == wait,
        o.wait_timeout is None ==> o.max_wait(lease) == lease,
{
}

} // verus!
