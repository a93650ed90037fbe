//! The state that the handlers read.

use std::sync::Arc;
use vstd::prelude::*;
use crate::errors::{ChangeMembershipError, ForwardToLeader, PreconditionFailed};
use crate::log_id::LogId;
use crate::log_id;
use crate::membership::{ChangeMembers, Membership, MembershipError};
use crate::node::Node;
use crate::raft_core::pending_reads::ReadLogId;
use crate::storage::StoredMembership;
use crate::time::{Duration, Instant};
use crate::vote::{IOId, Vote};

verus! {

/// What a node does in its cluster.
#[derive(Clone, Copy, Debug, PartialEq, Eq, Structural)]
pub enum ServerState {
    /// Receives logs, does not vote.
    Learner,
    /// Receives logs and votes.
    Follower,
    /// Asks for votes.
    Candidate,
    /// Proposes logs.
    Leader,
    /// Has stopped.
    Shutdown,
}

impl ServerState {
    /// The name of the state.
    pub open spec fn text(self) -> Seq<char> {
        match self {
            ServerState::Learner => "Learner"@,
            ServerState::Follower => "Follower"@,
            ServerState::Candidate => "Candidate"@,
            ServerState::Leader => "Leader"@,
            ServerState::Shutdown => "Shutdown"@,
        }
    }

    /// The name of the state.
    pub fn as_str(&self) -> (r: &'static str)
        ensures
            r@ == self.text(),
    {
        match self {
            ServerState::Learner => "Learner",
            ServerState::Follower => "Follower",
            ServerState::Candidate => "Candidate",
            ServerState::Leader => "Leader",
            ServerState::Shutdown => "Shutdown",
        }
    }
}

/// A vote and the time for which it binds.
#[derive(Clone, Copy, Debug, PartialEq, Eq, Structural)]
pub struct Leased {
    pub vote: Vote,
    /// When the vote was last updated, if ever.
    pub last_update: Option<Instant>,
    /// For how long an update binds, unless the lease is disabled.
    pub lease: Duration,
    pub lease_enabled: bool,
}

impl Leased {
    /// A vote that was updated at `now`.
    pub fn new(now: Instant, lease: Duration, vote: Vote) -> (r: Leased)
        ensures
            r == (Leased { vote, last_update: Some(now), lease, lease_enabled: true }),
    {
        Leased { vote, last_update: Some(now), lease, lease_enabled: true }
    }

    /// For how long an update binds.
    pub open spec fn binding(self) -> int {
        if self.lease_enabled {
            self.lease.nanos as int
        } else {
            0
        }
    }

    /// Whether `timeout` has passed since the vote ceased to bind.  A vote that was never updated
    /// does not bind.
    pub open spec fn expired(self, now: Instant, timeout: Duration) -> bool {
        match self.last_update {
            None => true,
            Some(t) => now.nanos > t.nanos + self.binding() + timeout.nanos,
        }
    }

    /// Whether `timeout` has passed since the vote ceased to bind.
    pub fn is_expired(&self, now: Instant, timeout: Duration) -> (r: bool)
        ensures
            r == self.expired(now, timeout),
    {
        match self.last_update {
            None => true,
            Some(t) => {
                let binding: u128 = if self.lease_enabled {
                    self.lease.nanos
                } else {
                    0
                };
                match t.nanos.checked_add(binding) {
                    None => false,
                    Some(x) => match x.checked_add(timeout.nanos) {
                        None => false,
                        Some(y) => now.nanos > y,
                    },
                }
            },
        }
    }
}

/// The last committed membership and the one in effect.
pub struct MembershipState<N> {
    pub committed: Arc<StoredMembership<N>>,
    pub effective: Arc<StoredMembership<N>>,
}

impl<N: Node> MembershipState<N> {
    /// A state of its parts.
    pub fn new(
        committed: Arc<StoredMembership<N>>,
        effective: Arc<StoredMembership<N>>,
    ) -> (r: MembershipState<N>)
        ensures
            r == (MembershipState { committed, effective }),
    {
        MembershipState { committed, effective }
    }

    /// The membership that a change proposes: none while the effective membership is not
    /// committed, else the valid one that the change makes of the effective membership.
    pub fn next_membership(&self, changes: ChangeMembers<N>, retain: bool) -> (r: Result<
        Membership<N>,
        ChangeMembershipError,
    >)
        requires
            self.effective.membership@.configs.len() > 0,
        ensures
            r is Ok <==> self.committed.log_id == self.effective.log_id && changes.proposed(
                self.effective.membership@,
                retain,
            ).valid(),
            match r {
                Ok(m) => m@ == changes.proposed(self.effective.membership@, retain),
                Err(ChangeMembershipError::InProgress { committed, membership_log_id }) => {
                    &&& self.committed.log_id != self.effective.log_id
                    &&& committed == self.committed.log_id
                    &&& membership_log_id == self.effective.log_id
                },
                Err(ChangeMembershipError::EmptyMembership) => {
                    &&& self.committed.log_id == self.effective.log_id
                    &&& !changes.proposed(self.effective.membership@, retain).no_empty_config()
                },
                Err(ChangeMembershipError::LearnerNotFound { node_id }) => {
                    let p = changes.proposed(self.effective.membership@, retain);
                    &&& self.committed.log_id == self.effective.log_id
                    &&& p.no_empty_config()
                    &&& p.voters().contains(node_id)
                    &&& !p.nodes.contains_key(node_id)
                },
                Err(ChangeMembershipError::UncommittedLeaderLog { .. }) => false,
            },
    {
        if self.committed.log_id != self.effective.log_id {
            return Err(
                ChangeMembershipError::InProgress {
                    committed: self.committed.log_id,
                    membership_log_id: self.effective.log_id,
                },
            );
        }
        match self.effective.membership.change(changes, retain) {
            Ok(m) => Ok(m),
            Err(MembershipError::EmptyConfig) => Err(ChangeMembershipError::EmptyMembership),
            Err(MembershipError::NodeNotFound { node_id }) => Err(
                ChangeMembershipError::LearnerNotFound { node_id },
            ),
        }
    }
}

/// A condition under which a caller proposes a membership.
#[derive(Clone, Copy, Debug, PartialEq, Eq, Structural)]
pub enum Precondition {
    /// The effective membership stands at this log id.
    LastMembershipLogId { last_membership_log_id: Option<LogId> },
}

impl Precondition {
    /// Whether the condition holds where the effective membership stands at `actual`.
    pub open spec fn check(self, actual: Option<LogId>) -> Result<(), PreconditionFailed> {
        match self {
            Precondition::LastMembershipLogId { last_membership_log_id } => if actual
                == last_membership_log_id {
                Ok(())
            } else {
                Err(
                    PreconditionFailed::LastMembershipLogId {
                        expected: last_membership_log_id,
                        actual,
                    },
                )
            },
        }
    }

    /// Whether the condition holds.
    pub fn ensure_satisfied<N: Node>(&self, state: &RaftState<N>) -> (r: Result<
        (),
        PreconditionFailed,
    >)
        ensures
            r == self.check(state.membership_state.effective.log_id),
    {
        match self {
            Precondition::LastMembershipLogId { last_membership_log_id } => {
                let actual = state.membership_state.effective.log_id;
                if actual == *last_membership_log_id {
                    Ok(())
                } else {
                    Err(
                        PreconditionFailed::LastMembershipLogId {
                            expected: *last_membership_log_id,
                            actual,
                        },
                    )
                }
            },
        }
    }
}

/// The first condition that does not hold, if any.
pub open spec fn check_all(
    preconditions: Seq<Precondition>,
    actual: Option<LogId>,
) -> Result<(), PreconditionFailed>
    decreases preconditions.len(),
{
    if preconditions.len() == 0 {
        Ok(())
    } else {
        match preconditions[0].check(actual) {
            Err(e) => Err(e),
            Ok(()) => check_all(preconditions.skip(1), actual),
        }
    }
}

/// How far the writes to the log store have come.
#[derive(Clone, Copy, Debug, PartialEq, Eq, Structural)]
pub struct LogProgress {
    pub accepted: Option<IOId>,
    pub submitted: Option<IOId>,
    pub flushed: Option<IOId>,
}

/// The state of a node that its handlers read.
pub struct RaftState<N> {
    pub vote: Leased,
    pub membership_state: MembershipState<N>,
    pub server_state: ServerState,
    pub last_log_id: Option<LogId>,
    pub local_committed: Option<LogId>,
    pub cluster_committed: Option<LogId>,
    pub io_applied: Option<LogId>,
    pub io_snapshot: Option<LogId>,
    pub io_purged: Option<LogId>,
    pub log_progress: LogProgress,
}

impl<N: Node> RaftState<N> {
    /// Where to forward a request to: the node `to` if it is a member.
    pub open spec fn forward_to(self, to: u64) -> ForwardToLeader<N> {
        let nodes = self.membership_state.effective.membership@.nodes;
        if nodes.contains_key(to) {
            ForwardToLeader { leader_id: Some(to), leader_node: Some(nodes[to]) }
        } else {
            ForwardToLeader::<N>::nowhere()
        }
    }

    /// Where to forward a request to: the leader of a committed vote if it is a member.
    pub open spec fn forward(self) -> ForwardToLeader<N> {
        if self.vote.vote.committed {
            self.forward_to(self.vote.vote.leader_id.node_id)
        } else {
            ForwardToLeader::<N>::nowhere()
        }
    }

    /// Where to forward a request to: the node `to` if it is a member.
    pub fn new_forward_to_leader(&self, to: u64) -> (r: ForwardToLeader<N>)
        ensures
            r == self.forward_to(to),
    {
        match self.membership_state.effective.membership.get_node(to) {
            Some(n) => ForwardToLeader::new(to, n.duplicate()),
            None => ForwardToLeader::empty(),
        }
    }

    /// Where to forward a request to: the leader of a committed vote if it is a member.
    pub fn forward_to_leader(&self) -> (r: ForwardToLeader<N>)
        ensures
            r == self.forward(),
    {
        if self.vote.vote.is_committed() {
            self.new_forward_to_leader(self.vote.vote.leader_id.node_id)
        } else {
            ForwardToLeader::empty()
        }
    }

    /// Whether every condition holds; the first that does not is reported.
    pub fn ensure_preconditions_satisfied(&self, preconditions: &Vec<Precondition>) -> (r: Result<
        (),
        PreconditionFailed,
    >)
        ensures
            r == check_all(preconditions@, self.membership_state.effective.log_id),
    {
        let ghost actual = self.membership_state.effective.log_id;
        let mut i: usize = 0;
        assert(preconditions@.skip(0) =~= preconditions@);
        while i < preconditions.len()
            invariant
                i <= preconditions.len(),
                actual == self.membership_state.effective.log_id,
                check_all(preconditions@, actual) == check_all(preconditions@.skip(i as int), actual),
            decreases preconditions.len() - i,
        {
            assert(preconditions@.skip(i as int)[0] == preconditions[i as int]);
            assert(preconditions@.skip(i as int).skip(1) =~= preconditions@.skip(i + 1));
            match preconditions[i].ensure_satisfied(self) {
                Ok(()) => {},
                Err(e) => {
                    return Err(e);
                },
            }
            i = i + 1;
        }
        Ok(())
    }
}

/// What a leader knows of the node that it replicates to.
#[derive(Clone, Copy, Debug, PartialEq, Eq, Structural)]
pub struct TargetState {
    pub id: u64,
    /// The last log entry that the node is known to hold.
    pub matching: Option<LogId>,
    /// When the node last acknowledged the leader.
    pub acked_at: Option<Instant>,
    /// Whether the node has not been sent a heartbeat for the least interval.
    pub heartbeat_due: bool,
}

/// What a node knows while it leads.
pub struct Leader {
    pub committed_vote: Vote,
    /// The first log entry of the leader.
    pub noop_log_id: LogId,
    /// The node to which leadership is being transferred.
    pub transfer_to: Option<u64>,
    /// When a quorum last acknowledged the leader.
    pub last_quorum_acked: Option<Instant>,
    /// Whether the leader alone is a quorum.
    pub self_quorum: bool,
    /// Whether a quorum has acknowledged the leader within its lease.
    pub lease_valid: bool,
    pub next_heartbeat: Instant,
    pub progress: Vec<TargetState>,
}

impl Leader {
    /// The log id that a linearizable read must see applied.
    pub open spec fn read_log_id(self, committed: Option<LogId>) -> ReadLogId {
        ReadLogId {
            noop_log_id: self.noop_log_id,
            committed: if log_id::opt_at_most(Some(self.noop_log_id), committed) {
                committed
            } else {
                None
            },
        }
    }

    /// The log id that a linearizable read must see applied: the first entry of this leader, and
    /// the last committed entry if that is not before it.
    pub fn get_read_log_id(&self, committed: &Option<LogId>) -> (r: ReadLogId)
        ensures
            r == self.read_log_id(*committed),
    {
        let c = if log_id::opt_is_at_most(&Some(self.noop_log_id), committed) {
            *committed
        } else {
            None
        };
        ReadLogId::new(self.noop_log_id, c)
    }
}

/// A node that asks for votes.
#[derive(Clone, Copy, Debug, PartialEq, Eq, Structural)]
pub struct Candidate {
    pub vote: Vote,
    pub starting_time: Instant,
}

/// A read must see the first entry of its leader, and what is committed once that is no older.
pub proof fn reads_see_the_leaders_log(leader: Leader, committed: Option<LogId>, r: ReadLogId)
    requires
        call_ensures(Leader::get_read_log_id, (&leader, &committed), r),
    ensures
        r.noop_log_id == leader.noop_log_id,
        committed matches Some(c) ==> (leader.noop_log_id.at_most(c) ==> r.committed == Some(c)) && (
        !leader.noop_log_id.at_most(c) ==> r.committed is None),
        committed is None ==> r.committed is None,
{
}

/// A condition holds exactly if the membership in effect stands where the caller took it to; else both
/// are told.
pub proof fn condition_calls<N: Node>(
    p: Precondition,
    state: RaftState<N>,
    r: Result<(), PreconditionFailed>,
)
    requires
        call_ensures(Precondition::ensure_satisfied::<N>, (&p, &state), r),
    ensures
        p matches Precondition::LastMembershipLogId { last_membership_log_id: want } ==> {
            let actual = state.membership_state.effective.log_id;
            &&& r is Ok <==> want == actual
            &&& r is Err ==> r->Err_0 == (PreconditionFailed::LastMembershipLogId {
                expected: want,
                actual,
            })
        },
{
}

/// A request is sent on to a member only, and to the leader only once its vote is committed.
pub proof fn forward_calls<N: Node>(state: RaftState<N>, to: u64, r: ForwardToLeader<N>)
    ensures
        call_ensures(RaftState::<N>::new_forward_to_leader, (&state, to), r) ==> {
            let nodes = state.membership_state.effective.membership@.nodes;
            &&& nodes.contains_key(to) ==> r.leader_id == Some(to) && r.leader_node == Some(nodes[to])
            &&& !nodes.contains_key(to) ==> r.leader_id is None && r.leader_node is None
        },
        call_ensures(RaftState::<N>::forward_to_leader, (&state,), r) ==> {
            let nodes = state.membership_state.effective.membership@.nodes;
            let leader = state.vote.vote.leader_id.node_id;
            &&& state.vote.vote.committed && nodes.contains_key(leader) ==> r.leader_id == Some(
                leader,
            ) && r.leader_node == Some(nodes[leader])
            &&& !state.vote.vote.committed || !nodes.contains_key(leader) ==> r.leader_id is None
                && r.leader_node is None
        },
{
}

/// A vote binds from its last update until its lease, and the time beyond it, have passed; one that was
/// never updated, or whose lease is disabled, binds through no lease.
pub proof fn lease_calls(v: Leased, now: Instant, timeout: Duration, r: bool)
    requires
        call_ensures(Leased::is_expired, (&v, now, timeout), r),
    ensures
        v.last_update is None ==> r,
        v.last_update matches Some(t) ==> v.lease_enabled ==> (r <==> now.nanos - t.nanos
            > v.lease.nanos + timeout.nanos),
        v.last_update matches Some(t) ==> !v.lease_enabled ==> (r <==> now.nanos - t.nanos
            > timeout.nanos),
{
}

} // verus!
