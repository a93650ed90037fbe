//! Heartbeats, waiting reads and what is done after every round of messages.

use vstd::prelude::*;
use crate::errors::{ForwardToLeader, LinearizableReadError, QuorumNotEnough};
use crate::log_id::LogId;
use crate::raft_core::action::{CoreAction, Recorded};
use crate::raft_core::handlers::RaftCore;
use crate::raft_core::handlers;
use crate::raft_core::pending_reads::{Linearizer, PendingRead};
use crate::raft_core::pending_reads;
use crate::seqs;
use crate::time::Instant;
use crate::type_config::RaftTypeConfig;

verus! {

impl<C: RaftTypeConfig> RaftCore<C> {
    /// Whether a heartbeat is sent.
    pub open spec fn heartbeat_sent(self) -> bool {
        match self.engine.leader {
            Some(l) => l.transfer_to is None,
            None => false,
        }
    }

    /// The actions of sending a heartbeat.
    pub open spec fn heartbeat_actions(self) -> Seq<CoreAction<C>> {
        if self.heartbeat_sent() {
            seq![CoreAction::<C>::SendHeartbeat { bypass_min_interval: false }]
                + handlers::recorded::<C>(self.metrics_recorder, Recorded::Heartbeat)
        } else {
            Seq::empty()
        }
    }

    /// Send a heartbeat to every follower and learner, unless this node does not lead or hands its
    /// leadership over.
    pub fn send_heartbeat(&self) -> (r: (bool, Vec<CoreAction<C>>))
        ensures
            r.0 == self.heartbeat_sent(),
            r.1@ == self.heartbeat_actions(),
    {
        match &self.engine.leader {
            None => (false, Vec::new()),
            Some(l) => {
                if l.transfer_to.is_some() {
                    return (false, Vec::new());
                }
                let mut actions: Vec<CoreAction<C>> = vec![
                    CoreAction::SendHeartbeat { bypass_min_interval: false },
                ];
                let mut record = self.record(Recorded::Heartbeat);
                actions.append(&mut record);
                (true, actions)
            },
        }
    }

    /// The waiting reads that a quorum has satisfied.
    pub open spec fn reads_satisfied(self) -> Seq<PendingRead> {
        match self.engine.leader->0.last_quorum_acked {
            Some(t) => seqs::keep_if(self.pending_reads@, pending_reads::satisfied(t)),
            None => Seq::empty(),
        }
    }

    /// The waiting reads that no quorum has satisfied.
    pub open spec fn reads_unsatisfied(self) -> Seq<PendingRead> {
        match self.engine.leader->0.last_quorum_acked {
            Some(t) => seqs::keep_if(self.pending_reads@, pending_reads::unsatisfied(t)),
            None => self.pending_reads@,
        }
    }

    /// The reads that go on waiting after a check at `now`.
    pub open spec fn reads_left(self, now: Instant) -> Seq<PendingRead> {
        match self.engine.leader {
            Some(_) => seqs::keep_if(self.reads_unsatisfied(), pending_reads::unexpired(now)),
            None => Seq::empty(),
        }
    }

    /// The answers to waiting reads that a check at `now` gives.
    pub open spec fn read_answers(self, now: Instant) -> Seq<CoreAction<C>> {
        match self.engine.leader {
            Some(_) => handlers::satisfy_reads::<C>(
                self.reads_satisfied(),
                self.engine.state.io_applied,
            ) + handlers::expire_reads::<C>(
                seqs::keep_if(self.reads_unsatisfied(), pending_reads::expired(now)),
            ),
            None => handlers::fail_reads::<C>(
                self.pending_reads@,
                LinearizableReadError::ForwardToLeader(self.engine.state.forward()),
            ),
        }
    }

    /// The actions of a check of the waiting reads at `now`.
    pub open spec fn pending_read_actions(self, now: Instant) -> Seq<CoreAction<C>> {
        self.read_answers(now).push(
            CoreAction::<C>::SetReadDeadline {
                deadline: pending_reads::earliest(self.reads_left(now)),
            },
        )
    }

    /// Answer the waiting reads that a quorum has satisfied, then those that have waited too long.
    /// A node that does not lead answers all of them with the leader to forward to.
    pub fn process_pending_reads(&mut self, now: Instant) -> (r: Vec<CoreAction<C>>)
        ensures
            r@ == old(self).pending_read_actions(now),
            final(self).same_but_reads(*old(self)),
            final(self).pending_reads@ == old(self).reads_left(now),
    {
        let acked = match &self.engine.leader {
            Some(l) => Some(l.last_quorum_acked),
            None => None,
        };
        match acked {
            Some(acked) => {
                let applied = self.engine.state.io_applied;
                let mut actions = match acked {
                    Some(t) => {
                        let satisfied = self.pending_reads.drain_satisfied(t);
                        Self::satisfy(&satisfied, applied)
                    },
                    None => {
                        let r: Vec<CoreAction<C>> = Vec::new();
                        assert(r@ =~= handlers::satisfy_reads::<C>(Seq::empty(), applied));
                        r
                    },
                };
                let expired = self.pending_reads.drain_expired(now);
                let mut errors = Self::expire(&expired);
                actions.append(&mut errors);
                actions.push(self.reschedule_pending_read_check());
                actions
            },
            None => {
                let forward = self.engine.state.forward_to_leader();
                let reads = self.pending_reads.drain_all();
                let mut actions = Self::fail_reads_with(&reads, &forward);
                actions.push(self.reschedule_pending_read_check());
                actions
            },
        }
    }

    /// Answer all waiting reads with the leader to forward to.
    pub fn fail_pending_reads(&mut self) -> (r: Vec<CoreAction<C>>)
        ensures
            r@ == handlers::fail_reads::<C>(
                old(self).pending_reads@,
                LinearizableReadError::ForwardToLeader(old(self).engine.state.forward()),
            ).push(CoreAction::<C>::SetReadDeadline { deadline: None }),
            final(self).same_but_reads(*old(self)),
            final(self).pending_reads@ == Seq::<PendingRead>::empty(),
    {
        let forward = self.engine.state.forward_to_leader();
        let reads = self.pending_reads.drain_all();
        let mut actions = Self::fail_reads_with(&reads, &forward);
        actions.push(self.reschedule_pending_read_check());
        actions
    }

    fn satisfy(reads: &Vec<PendingRead>, applied: Option<LogId>) -> (r: Vec<CoreAction<C>>)
        ensures
            r@ == handlers::satisfy_reads::<C>(reads@, applied),
    {
        let mut actions: Vec<CoreAction<C>> = Vec::new();
        let mut i: usize = 0;
        while i < reads.len()
            invariant
                i <= reads.len(),
                actions@ =~= handlers::satisfy_reads::<C>(reads@.take(i as int), applied),
            decreases reads.len() - i,
        {
            let p = reads[i];
            assert(reads@.take(i + 1) =~= reads@.take(i as int).push(p));
            actions.push(
                CoreAction::ReplyRead {
                    tx: p.tx,
                    result: Ok(
                        Linearizer {
                            node_id: p.linearizer.node_id,
                            read_log_id: p.linearizer.read_log_id,
                            applied,
                        },
                    ),
                },
            );
            i = i + 1;
        }
        assert(reads@.take(reads.len() as int) =~= reads@);
        actions
    }

    fn expire(reads: &Vec<PendingRead>) -> (r: Vec<CoreAction<C>>)
        ensures
            r@ == handlers::expire_reads::<C>(reads@),
    {
        let mut actions: Vec<CoreAction<C>> = Vec::new();
        let mut i: usize = 0;
        while i < reads.len()
            invariant
                i <= reads.len(),
                actions@ =~= handlers::expire_reads::<C>(reads@.take(i as int)),
            decreases reads.len() - i,
        {
            let p = reads[i];
            assert(reads@.take(i + 1) =~= reads@.take(i as int).push(p));
            actions.push(
                CoreAction::ReplyRead {
                    tx: p.tx,
                    result: Err(
                        LinearizableReadError::QuorumNotEnough(
                            QuorumNotEnough { min_quorum_acked_at: p.min_quorum_acked_at },
                        ),
                    ),
                },
            );
            i = i + 1;
        }
        assert(reads@.take(reads.len() as int) =~= reads@);
        actions
    }

    fn fail_reads_with(reads: &Vec<PendingRead>, forward: &ForwardToLeader<C::Node>) -> (r: Vec<
        CoreAction<C>,
    >)
        ensures
            r@ == handlers::fail_reads::<C>(
                reads@,
                LinearizableReadError::ForwardToLeader(*forward),
            ),
    {
        let mut actions: Vec<CoreAction<C>> = Vec::new();
        let mut i: usize = 0;
        while i < reads.len()
            invariant
                i <= reads.len(),
                actions@ =~= handlers::fail_reads::<C>(
                    reads@.take(i as int),
                    LinearizableReadError::ForwardToLeader(*forward),
                ),
            decreases reads.len() - i,
        {
            let p = reads[i];
            assert(reads@.take(i + 1) =~= reads@.take(i as int).push(p));
            actions.push(
                CoreAction::ReplyRead {
                    tx: p.tx,
                    result: Err(LinearizableReadError::ForwardToLeader(forward.duplicate())),
                },
            );
            i = i + 1;
        }
        assert(reads@.take(reads.len() as int) =~= reads@);
        actions
    }

    /// Ask for a snapshot, and record the log entry at which it was tried, if one is given, once
    /// the engine has queued the build.
    pub fn trigger_snapshot(&self, at: Option<LogId>) -> (r: CoreAction<C>)
        ensures
            r == (CoreAction::<C>::TriggerSnapshot { at }),
    {
        CoreAction::TriggerSnapshot { at }
    }

    /// The engine has answered a request for a snapshot.
    ///
    /// Only a build that was queued is recorded as tried: a request that was dropped because a
    /// build is under way must not keep the next one from being made.
    pub fn snapshot_triggered(&mut self, at: Option<LogId>, queued: bool)
        ensures
            final(self).snapshot_tried_at == (if queued && at is Some {
                at
            } else {
                old(self).snapshot_tried_at
            }),
            *final(self) == (RaftCore {
                snapshot_tried_at: final(self).snapshot_tried_at,
                ..*old(self)
            }),
    {
        if queued && at.is_some() {
            self.snapshot_tried_at = at;
        }
    }

    /// The actions after a round of messages, before the waiting reads are checked.
    pub open spec fn routine_prefix(self, snapshot_at: Option<LogId>) -> Seq<CoreAction<C>> {
        let snapshot: Seq<CoreAction<C>> = match snapshot_at {
            Some(_) => seq![CoreAction::<C>::TriggerSnapshot { at: snapshot_at }],
            None => Seq::empty(),
        };
        let replication: Seq<CoreAction<C>> = match self.engine.leader {
            Some(_) => seq![CoreAction::<C>::InitiateReplication],
            None => Seq::empty(),
        };
        let submitted: Seq<CoreAction<C>> = match self.engine.state.log_progress.submitted {
            Some(io_id) => seq![CoreAction::<C>::BroadcastSubmitted { io_id }],
            None => Seq::empty(),
        };
        snapshot + replication + submitted
    }

    /// What is done after every round of messages: build a snapshot if the policy asks for one at
    /// `snapshot_at`, keep idle replications going, tell the replications what was submitted, and
    /// check the waiting reads.
    pub fn trigger_routine_actions(&mut self, snapshot_at: Option<LogId>, now: Instant) -> (r: Vec<
        CoreAction<C>,
    >)
        ensures
            r@ == old(self).routine_prefix(snapshot_at) + old(self).pending_read_actions(now),
            final(self).same_but_reads(*old(self)),
            final(self).pending_reads@ == old(self).reads_left(now),
    {
        let mut actions: Vec<CoreAction<C>> = Vec::new();
        if snapshot_at.is_some() {
            actions.push(self.trigger_snapshot(snapshot_at));
        }
        if self.engine.leader.is_some() {
            actions.push(CoreAction::InitiateReplication);
        }
        match self.engine.state.log_progress.submitted {
            Some(io_id) => {
                actions.push(CoreAction::BroadcastSubmitted { io_id });
            },
            None => {},
        }
        assert(actions@ =~= old(self).routine_prefix(snapshot_at));
        let mut reads = self.process_pending_reads(now);
        actions.append(&mut reads);
        actions
    }

    /// The leader of a committed vote, whether it is a member or not.
    pub open spec fn leader_id_spec(self) -> Option<u64> {
        let vote = self.engine.state.vote.vote;
        if vote.committed {
            Some(vote.leader_id.node_id)
        } else {
            None
        }
    }

    /// The leader of a committed vote.
    ///
    /// A leader need not be a voter, nor a member: a leader that a membership change removes goes
    /// on until it steps down or another one is elected.
    pub fn current_leader(&self) -> (r: Option<u64>)
        ensures
            r == self.leader_id_spec(),
    {
        let vote = self.engine.state.vote.vote;
        if !vote.is_committed() {
            return None;
        }
        Some(vote.leader_id.node_id)
    }

    /// When a quorum last acknowledged this leader; `None` if this node does not lead or no quorum
    /// has.
    pub fn last_quorum_acked_time(&self) -> (r: Option<Instant>)
        ensures
            r == (match self.engine.leader {
                Some(l) => l.last_quorum_acked,
                None => None,
            }),
    {
        match &self.engine.leader {
            Some(l) => l.last_quorum_acked,
            None => None,
        }
    }

    /// What is known of the leader, if it is a member.
    pub open spec fn leader_node_spec(self, leader_id: Option<u64>) -> Option<C::Node> {
        let nodes = self.engine.state.membership_state.effective.membership@.nodes;
        match leader_id {
            Some(id) => if nodes.contains_key(id) {
                Some(nodes[id])
            } else {
                None
            },
            None => None,
        }
    }

    /// What is known of the leader, if it is a member.
    pub fn get_leader_node(&self, leader_id: Option<u64>) -> (r: Option<C::Node>)
        ensures
            r == self.leader_node_spec(leader_id),
    {
        match leader_id {
            Some(id) => match self.engine.state.membership_state.effective.membership.get_node(id) {
                Some(n) => Some(crate::node::Node::duplicate(n)),
                None => None,
            },
            None => None,
        }
    }
}

} // verus!
