//! The commands that the protocol engine asks the core of a node to run.

use std::collections::BTreeMap;
use vstd::prelude::*;
use crate::entry::Entry;
use crate::errors::{
    ClientWriteError, ErrorSource, ErrorSubject, ErrorVerb, ForwardToLeader, RPCTypes,
    StorageError, StorageIOResult, Timeout,
};
use crate::errors::storage_io_result::wraps;
use crate::log_id::LogId;
use crate::message::{TransferLeaderRequest, VoteRequest, VoteResponse};
use crate::raft_core::action::{Condition, CoreAction, Recorded};
use crate::raft_core::handlers::{RaftCore, ReplicationHandle};
use crate::raft_core::handlers;
use crate::raft_core::heartbeat::{HeartbeatEvent, TargetProgress};
use crate::raft_core::notification::Notification;
use crate::raft_core::responders;
use crate::raft_core::state::TargetState;
use crate::raft_core::targets::TargetList;
use crate::seqs;
use crate::sets;
use crate::time::{Duration, Instant};
use crate::type_config::RaftTypeConfig;
use crate::vote::{IOId, Vote};

verus! {

broadcast use vstd::std_specs::btree::group_btree_axioms;

/// What a replication is bound to: a leader and a membership.
#[derive(Clone, Copy, Debug, PartialEq, Eq, Structural)]
pub struct ReplicationSessionId {
    pub leader_vote: Vote,
    pub membership_log_id: Option<LogId>,
}

/// A command to the state machine, and what it makes progress.
#[derive(Clone, Copy, Debug, PartialEq, Eq, Structural)]
pub struct SmCommand {
    pub command: u64,
    pub log_progress: Option<IOId>,
    pub apply_progress: Option<LogId>,
    pub snapshot_progress: Option<LogId>,
}

/// What the protocol engine asks for.
pub enum Command<C: RaftTypeConfig> {
    UpdateIOProgress { io_id: IOId },
    AppendEntries { committed_vote: Vote, entries: Vec<Entry<C::Payload>> },
    SaveVote { vote: Vote },
    PurgeLog { upto: LogId },
    TruncateLog { after: Option<LogId> },
    SendVote { vote_req: VoteRequest },
    SendPreVote { vote_req: VoteRequest },
    ReplicateCommitted { committed: LogId },
    BroadcastHeartbeat { session_id: ReplicationSessionId, bypass_min_interval: bool },
    SaveCommittedAndApply { already_applied: Option<LogId>, upto: LogId },
    Replicate { req: u64, target: u64 },
    ReplicateSnapshot { leader_vote: Vote, target: u64, inflight_id: u64 },
    BroadcastTransferLeader { req: TransferLeaderRequest },
    CloseReplicationStreams,
    FailPendingReads,
    RebuildReplicationStreams {
        leader_vote: Vote,
        targets: Vec<TargetProgress>,
        close_old_streams: bool,
    },
    StateMachine { command: SmCommand },
    Respond { respond: u64 },
}

/// What becomes of a command.
pub enum CommandOutcome<C: RaftTypeConfig> {
    /// Its condition is not met; it comes back.
    Postponed(Command<C>),
    /// It is run by performing the actions.
    Run(Vec<CoreAction<C>>),
}

/// Whether requests for votes or for pre-votes are sent.
#[derive(Clone, Copy, Debug, PartialEq, Eq, Structural)]
pub enum VoteRequestKind {
    Vote,
    PreVote,
}

impl VoteRequestKind {
    /// `"vote"` or `"pre-vote"`.
    pub fn as_str(self) -> (r: &'static str)
        ensures
            r@ == (match self {
                VoteRequestKind::Vote => "vote"@,
                VoteRequestKind::PreVote => "pre-vote"@,
            }),
    {
        match self {
            VoteRequestKind::Vote => "vote",
            VoteRequestKind::PreVote => "pre-vote",
        }
    }
}

/// What came of a request for a vote.
#[derive(Clone, Copy, Debug, PartialEq, Eq, Structural)]
pub enum VoteReply {
    /// The node answered.
    Answer(VoteResponse),
    /// The network failed.
    Failed,
    /// No answer came in time.
    TimedOut,
}

/// Requests for votes that are sent to other nodes, each with the time for which its answer is
/// waited for.
pub struct VoteRound {
    pub targets: TargetList,
    pub request: VoteRequest,
    pub kind: VoteRequestKind,
    pub ttl: Duration,
}

impl VoteRound {
    /// What the core of this node is told of the answer of a target.
    ///
    /// Only an answer counts: a node that cannot be reached grants no vote and no pre-vote, else a
    /// node that is cut off would take itself for elected.
    pub fn on_reply<C: RaftTypeConfig>(&self, target: u64, reply: VoteReply) -> (r: Option<
        Notification<C>,
    >)
        ensures
            r == (match reply {
                VoteReply::Answer(resp) => Some(
                    match self.kind {
                        VoteRequestKind::Vote => Notification::<C>::VoteResponse {
                            target,
                            resp,
                            candidate_vote: self.request.vote.as_non_committed(),
                        },
                        VoteRequestKind::PreVote => Notification::<C>::PreVoteResponse {
                            target,
                            resp,
                            candidate_vote: self.request.vote.as_non_committed(),
                        },
                    },
                ),
                VoteReply::Failed => None,
                VoteReply::TimedOut => None,
            }),
    {
        match reply {
            VoteReply::Answer(resp) => {
                let candidate_vote = self.request.vote.to_non_committed();
                match self.kind {
                    VoteRequestKind::Vote => Some(
                        Notification::VoteResponse { target, resp, candidate_vote },
                    ),
                    VoteRequestKind::PreVote => Some(
                        Notification::PreVoteResponse { target, resp, candidate_vote },
                    ),
                }
            },
            VoteReply::Failed => None,
            VoteReply::TimedOut => None,
        }
    }
}

/// The message that hands a leadership over, which is sent to other nodes.
pub struct TransferRound {
    pub targets: TargetList,
    pub request: TransferLeaderRequest,
    pub ttl: Duration,
}

/// What has to be done to apply log entries.
pub struct ApplyPlan {
    /// How many entries are applied.
    pub entry_count: u64,
    /// The writers of the entries, each of whom is told that the entry is committed.
    pub responders: Vec<(u64, u64)>,
}

/// The entries of a list of ids for which a node other than `id` stands.
pub open spec fn is_other(id: u64) -> spec_fn(u64) -> bool {
    |x: u64| x != id
}

/// Which targets are sent a heartbeat: all but this node, and with `due_only` those only that have
/// not been sent one for the least interval.
pub open spec fn is_heartbeat_target(id: u64, due_only: bool) -> spec_fn(TargetState) -> bool {
    |t: TargetState| t.id != id && (t.heartbeat_due || !due_only)
}

/// Sending heartbeats.
pub open spec fn heartbeats_to<C: RaftTypeConfig>(
    targets: Seq<TargetState>,
    now: Instant,
    cluster_committed: Option<LogId>,
) -> Seq<CoreAction<C>> {
    targets.map_values(
        |t: TargetState|
            CoreAction::<C>::SendHeartbeatTo {
                target: t.id,
                event: HeartbeatEvent { time: now, matching: t.matching, cluster_committed },
            },
    )
}

/// Closing replications.
pub open spec fn closes<C: RaftTypeConfig>(targets: Seq<u64>) -> Seq<CoreAction<C>> {
    targets.map_values(|t: u64| CoreAction::<C>::CloseReplication { target: t })
}

/// The replications that are left of the old ones, the new ones, and the actions, after the given
/// targets were dealt with.
pub open spec fn streams_after<C: RaftTypeConfig>(
    old: Map<u64, ReplicationHandle>,
    leader_vote: Vote,
    targets: Seq<TargetProgress>,
    close_old: bool,
) -> (Map<u64, ReplicationHandle>, Map<u64, ReplicationHandle>, Seq<CoreAction<C>>)
    decreases targets.len(),
{
    if targets.len() == 0 {
        (old, Map::empty(), Seq::empty())
    } else {
        let (left, new, actions) = streams_after::<C>(
            old,
            leader_vote,
            targets.drop_last(),
            close_old,
        );
        let t = targets.last();
        let fresh = ReplicationHandle { stream_id: t.stream_id, transmitting: false };
        let spawn = CoreAction::<C>::SpawnReplication {
            target: t.target,
            stream_id: t.stream_id,
            leader_vote,
        };
        if left.contains_key(t.target) {
            if close_old {
                (
                    left.remove(t.target),
                    new.insert(t.target, fresh),
                    actions.push(CoreAction::CloseReplication { target: t.target }).push(spawn),
                )
            } else {
                (left.remove(t.target), new.insert(t.target, left[t.target]), actions)
            }
        } else {
            (left.remove(t.target), new.insert(t.target, fresh), actions.push(spawn))
        }
    }
}

impl<C: RaftTypeConfig> RaftCore<C> {
    /// Whether `targets` are the voters other than this node, in increasing order.
    pub open spec fn other_voters(self, targets: Seq<u64>) -> bool {
        exists|ids: Seq<u64>| #[trigger]
            sets::lists(
                ids,
                self.engine.state.membership_state.effective.membership@.voters(),
            ) && targets == seqs::keep_if(ids, is_other(self.id))
    }

    /// The voters other than this node, in increasing order.
    pub fn broadcast_to_voters(&self) -> (r: TargetList)
        ensures
            self.other_voters(r@),
    {
        let voters = self.engine.state.membership_state.effective.membership.voter_ids();
        let mut targets = TargetList::new();
        let mut i: usize = 0;
        while i < voters.len()
            invariant
                i <= voters.len(),
                targets@ == seqs::keep_if(voters@.take(i as int), is_other(self.id)),
            decreases voters.len() - i,
        {
            let id = voters[i];
            proof {
                assert(voters@.take(i + 1) =~= voters@.take(i as int).push(id));
                seqs::keep_if_push(voters@.take(i as int), id, is_other(self.id));
            }
            if id != self.id {
                targets.push(id);
            }
            i = i + 1;
        }
        assert(voters@.take(voters.len() as int) =~= voters@);
        targets
    }

    /// How long an answer to a request for a vote, or to the message that hands the leadership over,
    /// is waited for.
    pub fn vote_ttl(&self) -> (r: Duration)
        ensures
            r.nanos == self.config.election_timeout_min * 1_000_000,
    {
        Duration::from_millis(self.config.election_timeout_min)
    }

    /// Ask every other voter for its vote or pre-vote.
    pub fn spawn_parallel_vote_requests(&self, vote_req: &VoteRequest, kind: VoteRequestKind) -> (r:
        VoteRound)
        ensures
            r.request == *vote_req,
            r.kind == kind,
            r.ttl.nanos == self.config.election_timeout_min * 1_000_000,
            self.other_voters(r.targets@),
    {
        VoteRound {
            targets: self.broadcast_to_voters(),
            request: *vote_req,
            kind,
            ttl: self.vote_ttl(),
        }
    }

    /// Tell every other voter to accept a new leader.
    pub fn broadcast_transfer_leader(&self, req: TransferLeaderRequest) -> (r: TransferRound)
        ensures
            r.request == req,
            r.ttl.nanos == self.config.election_timeout_min * 1_000_000,
            self.other_voters(r.targets@),
    {
        TransferRound { targets: self.broadcast_to_voters(), request: req, ttl: self.vote_ttl() }
    }

    /// The error of a request for a vote that was not answered in time.
    pub fn vote_timeout(&self, target: u64) -> (r: Timeout)
        ensures
            r.action == RPCTypes::Vote,
            r.id == self.id,
            r.target == target,
            r.timeout.nanos == self.config.election_timeout_min * 1_000_000,
    {
        Timeout { action: RPCTypes::Vote, id: self.id, target, timeout: self.vote_ttl() }
    }

    /// The session of this leader.
    pub open spec fn session(self) -> ReplicationSessionId {
        ReplicationSessionId {
            leader_vote: self.engine.leader->0.committed_vote,
            membership_log_id: self.engine.state.membership_state.effective.log_id,
        }
    }

    /// The actions of sending heartbeats in a session.
    pub open spec fn broadcast_heartbeat_actions(
        self,
        now: Instant,
        session_id: ReplicationSessionId,
        bypass_min_interval: bool,
    ) -> Seq<CoreAction<C>> {
        if self.engine.leader is Some && self.session() == session_id {
            heartbeats_to::<C>(
                seqs::keep_if(
                    self.engine.leader->0.progress@,
                    is_heartbeat_target(self.id, !bypass_min_interval),
                ),
                now,
                self.engine.state.cluster_committed,
            )
        } else {
            Seq::empty()
        }
    }

    /// Send a heartbeat to every other node, with the entry that it is known to hold, unless the
    /// leader or the membership has changed since the heartbeat was asked for.
    pub fn broadcast_heartbeat(
        &self,
        now: Instant,
        session_id: ReplicationSessionId,
        bypass_min_interval: bool,
    ) -> (r: Vec<CoreAction<C>>)
        ensures
            r@ == self.broadcast_heartbeat_actions(now, session_id, bypass_min_interval),
    {
        let leader = match &self.engine.leader {
            Some(l) => l,
            None => {
                return Vec::new();
            },
        };
        let current = ReplicationSessionId {
            leader_vote: leader.committed_vote,
            membership_log_id: self.engine.state.membership_state.effective.log_id,
        };
        if current != session_id {
            return Vec::new();
        }
        let cluster_committed = self.engine.state.cluster_committed;
        let ghost f = is_heartbeat_target(self.id, !bypass_min_interval);
        let mut actions: Vec<CoreAction<C>> = Vec::new();
        let mut i: usize = 0;
        while i < leader.progress.len()
            invariant
                i <= leader.progress.len(),
                f == is_heartbeat_target(self.id, !bypass_min_interval),
                actions@ =~= heartbeats_to::<C>(
                    seqs::keep_if(leader.progress@.take(i as int), f),
                    now,
                    cluster_committed,
                ),
            decreases leader.progress.len() - i,
        {
            let t = leader.progress[i];
            proof {
                assert(leader.progress@.take(i + 1) =~= leader.progress@.take(i as int).push(t));
                seqs::keep_if_push(leader.progress@.take(i as int), t, f);
            }
            if t.id != self.id && (bypass_min_interval || t.heartbeat_due) {
                actions.push(
                    CoreAction::SendHeartbeatTo {
                        target: t.id,
                        event: HeartbeatEvent { time: now, matching: t.matching, cluster_committed },
                    },
                );
            }
            i = i + 1;
        }
        assert(leader.progress@.take(leader.progress.len() as int) =~= leader.progress@);
        actions
    }

    /// The actions of a write that needs nothing done but to be counted.
    pub fn run_update_io_progress(&self, io_id: IOId) -> (r: Vec<CoreAction<C>>)
        ensures
            r@ == seq![
                CoreAction::<C>::BroadcastAccepted { io_id },
                CoreAction::<C>::SubmitLog { io_id },
                CoreAction::<C>::Notify { notification: Notification::LocalIO { io_id } },
            ],
    {
        vec![
            CoreAction::BroadcastAccepted { io_id },
            CoreAction::SubmitLog { io_id },
            CoreAction::Notify { notification: Notification::LocalIO { io_id } },
        ]
    }

    /// The actions of appending entries to the log.
    pub open spec fn append_actions(
        self,
        committed_vote: Vote,
        entries: Vec<Entry<C::Payload>>,
    ) -> Seq<CoreAction<C>> {
        let io_id = IOId::Log { committed_vote, log_id: Some(entries@.last().log_id) };
        handlers::recorded::<C>(
            self.metrics_recorder,
            Recorded::AppendBatch(entries@.len() as u64),
        ) + seq![
            CoreAction::<C>::BroadcastAccepted { io_id },
            CoreAction::<C>::SubmitLog { io_id },
            CoreAction::<C>::AppendLog { entries, io_id },
        ]
    }

    /// Append entries to the log.  The write counts as submitted before it is handed to the store,
    /// which may report it done before it returns.
    pub fn run_append_entries(&self, committed_vote: Vote, entries: Vec<Entry<C::Payload>>) -> (r:
        Vec<CoreAction<C>>)
        requires
            entries@.len() > 0,
        ensures
            r@ == self.append_actions(committed_vote, entries),
    {
        let last_log_id = entries[entries.len() - 1].log_id;
        let io_id = IOId::Log { committed_vote, log_id: Some(last_log_id) };
        let mut actions = self.record(Recorded::AppendBatch(entries.len() as u64));
        actions.push(CoreAction::BroadcastAccepted { io_id });
        actions.push(CoreAction::SubmitLog { io_id });
        actions.push(CoreAction::AppendLog { entries, io_id });
        actions
    }

    /// The actions of saving a vote.
    pub open spec fn save_vote_actions(self, vote: Vote) -> Seq<CoreAction<C>> {
        let io_id = IOId::of_vote(vote);
        let saved = seq![
            CoreAction::<C>::BroadcastAccepted { io_id },
            CoreAction::<C>::SubmitLog { io_id },
            CoreAction::<C>::SaveVote { vote },
            CoreAction::<C>::Notify { notification: Notification::LocalIO { io_id } },
        ];
        if vote.committed {
            saved
        } else {
            saved.push(
                CoreAction::Notify {
                    notification: Notification::VoteResponse {
                        target: self.id,
                        resp: VoteResponse { vote, vote_granted: true, last_log_id: None },
                        candidate_vote: vote,
                    },
                },
            )
        }
    }

    /// Save a vote.  A vote that is not committed is granted to the candidate on this node, if there
    /// is one, as soon as it is saved.
    pub fn run_save_vote(&self, vote: Vote) -> (r: Vec<CoreAction<C>>)
        ensures
            r@ == self.save_vote_actions(vote),
    {
        let io_id = IOId::new(&vote);
        let mut actions = vec![
            CoreAction::BroadcastAccepted { io_id },
            CoreAction::SubmitLog { io_id },
            CoreAction::SaveVote { vote },
            CoreAction::Notify { notification: Notification::LocalIO { io_id } },
        ];
        if !vote.is_committed() {
            actions.push(
                CoreAction::Notify {
                    notification: Notification::VoteResponse {
                        target: self.id,
                        resp: VoteResponse::new(vote, None, true),
                        candidate_vote: vote,
                    },
                },
            );
        }
        actions
    }

    /// Where writers are forwarded to whose entries are gone.
    pub open spec fn current_forward(self) -> ForwardToLeader<C::Node> {
        ForwardToLeader {
            leader_id: self.leader_id_spec(),
            leader_node: self.leader_node_spec(self.leader_id_spec()),
        }
    }

    /// Tell writers whose entries are gone where the leader is.
    pub fn fail_responders(
        forward_err: &ForwardToLeader<C::Node>,
        drained: &Vec<(u64, u64)>,
    ) -> (r: Vec<CoreAction<C>>)
        ensures
            r@ == handlers::fail_drained::<C>(drained@, *forward_err),
    {
        let mut actions: Vec<CoreAction<C>> = Vec::new();
        let mut i: usize = 0;
        while i < drained.len()
            invariant
                i <= drained.len(),
                actions@ =~= handlers::fail_drained::<C>(drained@.take(i as int), *forward_err),
            decreases drained.len() - i,
        {
            assert(drained@.take(i + 1) =~= drained@.take(i as int).push(drained[i as int]));
            actions.push(
                CoreAction::FailWrite {
                    tx: drained[i].1,
                    error: ClientWriteError::ForwardToLeader(forward_err.duplicate()),
                },
            );
            i = i + 1;
        }
        assert(drained@.take(drained.len() as int) =~= drained@);
        actions
    }

    /// Purge the log, then deal with the writers of the purged entries.
    pub fn run_purge_log(&self, upto: LogId) -> (r: Vec<CoreAction<C>>)
        ensures
            r@ == seq![CoreAction::<C>::PurgeLog { upto }, CoreAction::<C>::AfterPurge { upto }],
    {
        vec![CoreAction::PurgeLog { upto }, CoreAction::AfterPurge { upto }]
    }

    /// The log is purged: the entries of writers that still wait at it or before it are gone, so
    /// these writers are told where the leader is.
    pub fn after_purge(&mut self, upto: LogId) -> (r: Vec<CoreAction<C>>)
        ensures
            r@ == handlers::fail_drained::<C>(
                seqs::keep_if(
                    old(self).client_responders@,
                    responders::is_upto(upto.index),
                ),
                old(self).current_forward(),
            ).push(CoreAction::UpdatePurged { upto }),
            final(self).same_but_responders(*old(self)),
            final(self).client_responders@ == seqs::keep_if(
                old(self).client_responders@,
                responders::is_after(upto.index),
            ),
    {
        let leader_id = self.current_leader();
        let forward = ForwardToLeader { leader_node: self.get_leader_node(leader_id), leader_id };
        let drained = self.client_responders.drain_upto(upto.index);
        let mut actions = Self::fail_responders(&forward, &drained);
        actions.push(CoreAction::UpdatePurged { upto });
        actions
    }

    /// Truncate the log, then deal with the writers of the truncated entries.
    pub fn run_truncate_log(&self, after: Option<LogId>) -> (r: Vec<CoreAction<C>>)
        ensures
            r@ == seq![
                CoreAction::<C>::TruncateLog { after },
                CoreAction::<C>::AfterTruncate { after },
            ],
    {
        vec![CoreAction::TruncateLog { after }, CoreAction::AfterTruncate { after }]
    }

    /// The log is truncated: the writers of the entries after `after` are told where the leader is.
    pub fn after_truncate(&mut self, after: Option<LogId>) -> (r: Vec<CoreAction<C>>)
        requires
            after matches Some(l) ==> l.index < u64::MAX,
        ensures
            ({
                let since = (match after {
                    Some(l) => (l.index + 1) as u64,
                    None => 0u64,
                });
                &&& r@ == handlers::fail_drained::<C>(
                    seqs::keep_if(old(self).client_responders@, responders::is_since(since)),
                    old(self).current_forward(),
                )
                &&& final(self).client_responders@ == seqs::keep_if(
                    old(self).client_responders@,
                    responders::is_before(since),
                )
            }),
            final(self).same_but_responders(*old(self)),
    {
        let leader_id = self.current_leader();
        let forward = ForwardToLeader { leader_node: self.get_leader_node(leader_id), leader_id };
        let since: u64 = match after {
            Some(l) => l.index + 1,
            None => 0,
        };
        let drained = self.client_responders.drain_from(since);
        Self::fail_responders(&forward, &drained)
    }

    /// Save how far the log is committed, then apply what is not applied yet.
    pub fn run_save_committed_and_apply(&self, already_applied: Option<LogId>, upto: LogId) -> (r:
        Vec<CoreAction<C>>)
        requires
            already_applied matches Some(l) ==> l.index < u64::MAX,
        ensures
            r@ == seq![
                CoreAction::<C>::SubmitApplied { log_id: upto },
                CoreAction::<C>::SaveCommitted { committed: upto },
                CoreAction::<C>::ApplyFrom {
                    first_index: match already_applied {
                        Some(l) => (l.index + 1) as u64,
                        None => 0,
                    },
                    last: upto,
                },
            ],
    {
        let first_index: u64 = match already_applied {
            Some(l) => l.index + 1,
            None => 0,
        };
        vec![
            CoreAction::SubmitApplied { log_id: upto },
            CoreAction::SaveCommitted { committed: upto },
            CoreAction::ApplyFrom { first_index, last: upto },
        ]
    }

    /// Apply the log entries from `first` to `last`, both inclusive: their writers no longer wait in
    /// the queue, but go with the entries to the state machine.
    pub fn apply_to_state_machine(&mut self, first: LogId, last: LogId) -> (r: (
        ApplyPlan,
        Vec<CoreAction<C>>,
    ))
        requires
            first.index <= last.index,
            last.index < u64::MAX,
        ensures
            r.0.entry_count == last.index + 1 - first.index,
            r.0.responders@ == seqs::keep_if(
                old(self).client_responders@,
                responders::is_upto(last.index),
            ),
            r.1@ == handlers::recorded::<C>(
                old(self).metrics_recorder,
                Recorded::ApplyBatch((last.index + 1 - first.index) as u64),
            ),
            final(self).same_but_responders(*old(self)),
            final(self).client_responders@ == seqs::keep_if(
                old(self).client_responders@,
                responders::is_after(last.index),
            ),
    {
        let responders = self.client_responders.drain_upto(last.index);
        let entry_count: u64 = last.index + 1 - first.index;
        let record = self.record(Recorded::ApplyBatch(entry_count));
        (ApplyPlan { entry_count, responders }, record)
    }

    /// Transmit a snapshot to a node that this leader replicates to.
    pub fn run_replicate_snapshot(&mut self, leader_vote: Vote, target: u64, inflight_id: u64) -> (r:
        Vec<CoreAction<C>>)
        requires
            old(self).replications@.contains_key(target),
        ensures
            r@ == seq![
                CoreAction::<C>::TransmitSnapshot {
                    target,
                    stream_id: old(self).replications@[target].stream_id,
                    leader_vote,
                    inflight_id,
                },
            ],
            final(self).replications@ == old(self).replications@.insert(
                target,
                ReplicationHandle {
                    stream_id: old(self).replications@[target].stream_id,
                    transmitting: true,
                },
            ),
            *final(self) == (RaftCore { replications: final(self).replications, ..*old(self) }),
    {
        let stream_id: u64 = match self.replications.get(&target) {
            Some(h) => h.stream_id,
            None => 0,
        };
        self.replications.insert(target, ReplicationHandle { stream_id, transmitting: true });
        vec![CoreAction::TransmitSnapshot { target, stream_id, leader_vote, inflight_id }]
    }

    /// Close the given replications.
    fn close_all(targets: &Vec<u64>) -> (r: Vec<CoreAction<C>>)
        ensures
            r@ == closes::<C>(targets@),
    {
        let mut actions: Vec<CoreAction<C>> = Vec::new();
        let mut i: usize = 0;
        while i < targets.len()
            invariant
                i <= targets.len(),
                actions@ =~= closes::<C>(targets@.take(i as int)),
            decreases targets.len() - i,
        {
            assert(targets@.take(i + 1) =~= targets@.take(i as int).push(targets[i as int]));
            actions.push(CoreAction::CloseReplication { target: targets[i] });
            i = i + 1;
        }
        assert(targets@.take(targets.len() as int) =~= targets@);
        actions
    }

    /// Whether the actions close every replication of a leader, in the order of the targets, after
    /// its heartbeat workers.
    pub open spec fn close_stream_actions(self, actions: Seq<CoreAction<C>>) -> bool {
        exists|ids: Seq<u64>| #[trigger]
            sets::lists(ids, self.replications@.dom()) && actions =~= seq![
                CoreAction::<C>::CloseHeartbeatWorkers,
            ] + closes::<C>(ids)
    }

    /// Close the heartbeat workers and the replications of a leader.
    pub fn run_close_replication_streams(&mut self) -> (r: Vec<CoreAction<C>>)
        ensures
            old(self).close_stream_actions(r@),
            final(self).replications@ == Map::<u64, ReplicationHandle>::empty(),
            *final(self) == (RaftCore { replications: final(self).replications, ..*old(self) }),
    {
        let mut actions: Vec<CoreAction<C>> = vec![CoreAction::CloseHeartbeatWorkers];
        let ids = sets::map_keys(&self.replications);
        let mut close = Self::close_all(&ids);
        self.replications = BTreeMap::new();
        actions.append(&mut close);
        proof {
            assert(sets::lists(ids@, old(self).replications@.dom()));
        }
        actions
    }

    /// Whether the actions make the replications of a leader anew.
    pub open spec fn rebuild_actions(
        self,
        leader_vote: Vote,
        targets: Seq<TargetProgress>,
        close_old: bool,
        actions: Seq<CoreAction<C>>,
    ) -> bool {
        let (left, new, done) = streams_after::<C>(
            self.replications@,
            leader_vote,
            targets,
            close_old,
        );
        exists|ids: Seq<u64>| #[trigger]
            sets::lists(ids, left.dom()) && actions =~= seq![
                CoreAction::<C>::SpawnHeartbeatWorkers { leader_vote, close_old },
            ] + done + closes::<C>(ids)
    }

    /// Have a replication to each target and to no other node.  A replication that is there is kept,
    /// unless the old ones are to be closed.
    pub fn run_rebuild_replication_streams(
        &mut self,
        leader_vote: Vote,
        targets: &Vec<TargetProgress>,
        close_old_streams: bool,
    ) -> (r: Vec<CoreAction<C>>)
        ensures
            old(self).rebuild_actions(leader_vote, targets@, close_old_streams, r@),
            final(self).replications@ == streams_after::<C>(
                old(self).replications@,
                leader_vote,
                targets@,
                close_old_streams,
            ).1,
            *final(self) == (RaftCore { replications: final(self).replications, ..*old(self) }),
    {
        let mut done: Vec<CoreAction<C>> = Vec::new();
        let mut new_replications: BTreeMap<u64, ReplicationHandle> = BTreeMap::new();
        let ghost old_map = self.replications@;
        let mut i: usize = 0;
        while i < targets.len()
            invariant
                i <= targets.len(),
                *self == (RaftCore { replications: self.replications, ..*old(self) }),
                (self.replications@, new_replications@, done@) == streams_after::<C>(
                    old_map,
                    leader_vote,
                    targets@.take(i as int),
                    close_old_streams,
                ),
            decreases targets.len() - i,
        {
            let t = targets[i];
            assert(targets@.take(i + 1).drop_last() =~= targets@.take(i as int));
            let ghost left = self.replications@;
            let removed = self.replications.remove(&t.target);
            assert(self.replications@ =~= left.remove(t.target));
            let fresh = ReplicationHandle { stream_id: t.stream_id, transmitting: false };
            match removed {
                Some(existing) => {
                    if close_old_streams {
                        done.push(CoreAction::CloseReplication { target: t.target });
                        done.push(
                            CoreAction::SpawnReplication {
                                target: t.target,
                                stream_id: t.stream_id,
                                leader_vote,
                            },
                        );
                        new_replications.insert(t.target, fresh);
                    } else {
                        new_replications.insert(t.target, existing);
                    }
                },
                None => {
                    done.push(
                        CoreAction::SpawnReplication {
                            target: t.target,
                            stream_id: t.stream_id,
                            leader_vote,
                        },
                    );
                    new_replications.insert(t.target, fresh);
                },
            }
            i = i + 1;
        }
        assert(targets@.take(targets.len() as int) =~= targets@);
        let ids = sets::map_keys(&self.replications);
        let mut close = Self::close_all(&ids);
        self.replications = new_replications;
        let ghost done_seq = done@;
        let mut actions: Vec<CoreAction<C>> = vec![
            CoreAction::SpawnHeartbeatWorkers { leader_vote, close_old: close_old_streams },
        ];
        actions.append(&mut done);
        actions.append(&mut close);
        proof {
            assert(sets::lists(
                ids@,
                streams_after::<C>(old_map, leader_vote, targets@, close_old_streams).0.dom(),
            ));
            assert(actions@ =~= seq![
                CoreAction::<C>::SpawnHeartbeatWorkers {
                    leader_vote,
                    close_old: close_old_streams,
                },
            ] + done_seq + closes::<C>(ids@));
        }
        actions
    }

    /// The actions of a command to the state machine.
    pub open spec fn state_machine_actions(command: SmCommand) -> Seq<CoreAction<C>> {
        let log: Seq<CoreAction<C>> = match command.log_progress {
            Some(io_id) => seq![CoreAction::<C>::SubmitLog { io_id }],
            None => Seq::empty(),
        };
        let applied: Seq<CoreAction<C>> = match command.apply_progress {
            Some(log_id) => seq![CoreAction::<C>::SubmitApplied { log_id }],
            None => Seq::empty(),
        };
        let snapshot: Seq<CoreAction<C>> = match command.snapshot_progress {
            Some(log_id) => seq![CoreAction::<C>::SubmitSnapshot { log_id }],
            None => Seq::empty(),
        };
        log + applied + snapshot + seq![
            CoreAction::<C>::SendToStateMachine { command: command.command },
        ]
    }

    /// Hand a command to the state machine; what it makes progress counts as submitted before.
    pub fn run_state_machine(&self, command: SmCommand) -> (r: Vec<CoreAction<C>>)
        ensures
            r@ == Self::state_machine_actions(command),
    {
        let mut actions: Vec<CoreAction<C>> = Vec::new();
        match command.log_progress {
            Some(io_id) => {
                actions.push(CoreAction::SubmitLog { io_id });
            },
            None => {},
        }
        match command.apply_progress {
            Some(log_id) => {
                actions.push(CoreAction::SubmitApplied { log_id });
            },
            None => {},
        }
        match command.snapshot_progress {
            Some(log_id) => {
                actions.push(CoreAction::SubmitSnapshot { log_id });
            },
            None => {},
        }
        actions.push(CoreAction::SendToStateMachine { command: command.command });
        assert(actions@ =~= Self::state_machine_actions(command));
        actions
    }

    /// Whether a command can be run: entries to append are there, a replication that is spoken of
    /// is there, and log indexes have a successor.
    pub open spec fn runs(self, cmd: Command<C>) -> bool {
        match cmd {
            Command::AppendEntries { entries, .. } => entries@.len() > 0,
            Command::SaveCommittedAndApply { already_applied, .. } => already_applied matches Some(
                l,
            ) ==> l.index < u64::MAX,
            Command::Replicate { target, .. } => self.replications@.contains_key(target),
            Command::ReplicateSnapshot { target, .. } => self.replications@.contains_key(target),
            _ => true,
        }
    }

    /// Whether a command can be run.
    pub fn can_run(&self, cmd: &Command<C>) -> (r: bool)
        ensures
            r == self.runs(*cmd),
    {
        match cmd {
            Command::AppendEntries { entries, .. } => entries.len() > 0,
            Command::SaveCommittedAndApply { already_applied, .. } => match already_applied {
                Some(l) => l.index < u64::MAX,
                None => true,
            },
            Command::Replicate { target, .. } => self.replications.contains_key(target),
            Command::ReplicateSnapshot { target, .. } => self.replications.contains_key(target),
            _ => true,
        }
    }

    /// The state and the actions after a command was run.
    pub open spec fn after_command(
        self,
        now: Instant,
        cmd: Command<C>,
        new: Self,
        actions: Seq<CoreAction<C>>,
    ) -> bool {
        match cmd {
            Command::UpdateIOProgress { io_id } => new == self && actions =~= seq![
                CoreAction::<C>::BroadcastAccepted { io_id },
                CoreAction::<C>::SubmitLog { io_id },
                CoreAction::<C>::Notify { notification: Notification::LocalIO { io_id } },
            ],
            Command::AppendEntries { committed_vote, entries } => new == self && actions
                =~= self.append_actions(committed_vote, entries),
            Command::SaveVote { vote } => new == self && actions =~= self.save_vote_actions(vote),
            Command::PurgeLog { upto } => new == self && actions =~= seq![
                CoreAction::<C>::PurgeLog { upto },
                CoreAction::<C>::AfterPurge { upto },
            ],
            Command::TruncateLog { after } => new == self && actions =~= seq![
                CoreAction::<C>::TruncateLog { after },
                CoreAction::<C>::AfterTruncate { after },
            ],
            Command::SendVote { vote_req } => new == self && actions =~= seq![
                CoreAction::<C>::BroadcastVote { vote_req, pre_vote: false },
            ],
            Command::SendPreVote { vote_req } => new == self && actions =~= seq![
                CoreAction::<C>::BroadcastVote { vote_req, pre_vote: true },
            ],
            Command::ReplicateCommitted { committed } => new == self && actions =~= seq![
                CoreAction::<C>::BroadcastCommitted { log_id: committed },
            ],
            Command::BroadcastHeartbeat { session_id, bypass_min_interval } => new == self
                && actions =~= self.broadcast_heartbeat_actions(
                now,
                session_id,
                bypass_min_interval,
            ),
            Command::SaveCommittedAndApply { already_applied, upto } => new == self && actions
                =~= seq![
                CoreAction::<C>::SubmitApplied { log_id: upto },
                CoreAction::<C>::SaveCommitted { committed: upto },
                CoreAction::<C>::ApplyFrom {
                    first_index: match already_applied {
                        Some(l) => (l.index + 1) as u64,
                        None => 0,
                    },
                    last: upto,
                },
            ],
            Command::Replicate { req, target } => new == self && actions =~= seq![
                CoreAction::<C>::Replicate { target, request: req },
            ],
            Command::ReplicateSnapshot { leader_vote, target, inflight_id } => {
                let stream_id = self.replications@[target].stream_id;
                &&& actions =~= seq![
                    CoreAction::<C>::TransmitSnapshot {
                        target,
                        stream_id,
                        leader_vote,
                        inflight_id,
                    },
                ]
                &&& new.replications@ == self.replications@.insert(
                    target,
                    ReplicationHandle { stream_id, transmitting: true },
                )
                &&& new == (RaftCore { replications: new.replications, ..self })
            },
            Command::BroadcastTransferLeader { req } => new == self && actions =~= seq![
                CoreAction::<C>::BroadcastTransferLeader { req },
            ],
            Command::CloseReplicationStreams => {
                &&& self.close_stream_actions(actions)
                &&& new.replications@ == Map::<u64, ReplicationHandle>::empty()
                &&& new == (RaftCore { replications: new.replications, ..self })
            },
            Command::FailPendingReads => {
                &&& new.same_but_reads(self)
                &&& new.pending_reads@ == Seq::<
                    crate::raft_core::pending_reads::PendingRead,
                >::empty()
                &&& actions =~= handlers::fail_reads::<C>(
                    self.pending_reads@,
                    crate::errors::LinearizableReadError::ForwardToLeader(
                        self.engine.state.forward(),
                    ),
                ).push(CoreAction::<C>::SetReadDeadline { deadline: None })
            },
            Command::RebuildReplicationStreams { leader_vote, targets, close_old_streams } => {
                &&& self.rebuild_actions(leader_vote, targets@, close_old_streams, actions)
                &&& new.replications@ == streams_after::<C>(
                    self.replications@,
                    leader_vote,
                    targets@,
                    close_old_streams,
                ).1
                &&& new == (RaftCore { replications: new.replications, ..self })
            },
            Command::StateMachine { command } => new == self && actions
                =~= Self::state_machine_actions(command),
            Command::Respond { respond } => new == self && actions =~= seq![
                CoreAction::<C>::SendRespond { respond },
            ],
        }
    }

    /// Run a command, or hand it back if its condition is not met.
    pub fn run_command(&mut self, now: Instant, cmd: Command<C>, condition: Option<Condition>) -> (r:
        CommandOutcome<C>)
        requires
            condition is None || condition->0.met(old(self).engine.state) ==> old(self).runs(cmd),
        ensures
            match r {
                CommandOutcome::Postponed(c) => {
                    &&& condition is Some
                    &&& !condition->0.met(old(self).engine.state)
                    &&& c == cmd
                    &&& *final(self) == *old(self)
                },
                CommandOutcome::Run(actions) => {
                    &&& condition is None || condition->0.met(old(self).engine.state)
                    &&& old(self).after_command(now, cmd, *final(self), actions@)
                },
            },
    {
        match condition {
            Some(c) => {
                if !c.is_met(&self.engine.state) {
                    return CommandOutcome::Postponed(cmd);
                }
            },
            None => {},
        }
        let actions: Vec<CoreAction<C>> = match cmd {
            Command::UpdateIOProgress { io_id } => self.run_update_io_progress(io_id),
            Command::AppendEntries { committed_vote, entries } => self.run_append_entries(
                committed_vote,
                entries,
            ),
            Command::SaveVote { vote } => self.run_save_vote(vote),
            Command::PurgeLog { upto } => self.run_purge_log(upto),
            Command::TruncateLog { after } => self.run_truncate_log(after),
            Command::SendVote { vote_req } => vec![
                CoreAction::BroadcastVote { vote_req, pre_vote: false },
            ],
            Command::SendPreVote { vote_req } => vec![
                CoreAction::BroadcastVote { vote_req, pre_vote: true },
            ],
            Command::ReplicateCommitted { committed } => vec![
                CoreAction::BroadcastCommitted { log_id: committed },
            ],
            Command::BroadcastHeartbeat { session_id, bypass_min_interval } =>
            self.broadcast_heartbeat(now, session_id, bypass_min_interval),
            Command::SaveCommittedAndApply { already_applied, upto } =>
            self.run_save_committed_and_apply(already_applied, upto),
            Command::Replicate { req, target } => vec![
                CoreAction::Replicate { target, request: req },
            ],
            Command::ReplicateSnapshot { leader_vote, target, inflight_id } =>
            self.run_replicate_snapshot(leader_vote, target, inflight_id),
            Command::BroadcastTransferLeader { req } => vec![
                CoreAction::BroadcastTransferLeader { req },
            ],
            Command::CloseReplicationStreams => self.run_close_replication_streams(),
            Command::FailPendingReads => self.fail_pending_reads(),
            Command::RebuildReplicationStreams { leader_vote, targets, close_old_streams } =>
            self.run_rebuild_replication_streams(leader_vote, &targets, close_old_streams),
            Command::StateMachine { command } => self.run_state_machine(command),
            Command::Respond { respond } => vec![CoreAction::SendRespond { respond }],
        };
        CommandOutcome::Run(actions)
    }
}

/// A write to the log store.
#[derive(Clone, Copy, Debug, PartialEq, Eq, Structural)]
pub enum StoreWrite {
    AppendLog,
    SaveVote,
    PurgeLog,
    TruncateLog,
    SaveCommitted,
}

impl StoreWrite {
    /// What a failed write was about.
    pub open spec fn subject(self) -> ErrorSubject {
        match self {
            StoreWrite::AppendLog => ErrorSubject::Logs,
            StoreWrite::SaveVote => ErrorSubject::Vote,
            StoreWrite::PurgeLog => ErrorSubject::Logs,
            StoreWrite::TruncateLog => ErrorSubject::Logs,
            StoreWrite::SaveCommitted => ErrorSubject::Store,
        }
    }

    /// The outcome of a write as the core sees it.
    pub fn outcome<C: RaftTypeConfig>(self, result: Result<(), std::io::Error>) -> (r: Result<
        (),
        StorageError<C>,
    >)
        ensures
            wraps(result, r, self.subject(), ErrorVerb::Write),
    {
        match self {
            StoreWrite::AppendLog => result.sto_write_logs(),
            StoreWrite::SaveVote => result.sto_write_vote(),
            StoreWrite::PurgeLog => result.sto_write_logs(),
            StoreWrite::TruncateLog => result.sto_write_logs(),
            StoreWrite::SaveCommitted => result.sto_write(),
        }
    }
}

/// The error of a command that the worker of the state machine is not there to take.
pub const ERR_NO_SM_WORKER: &'static str = "cannot send to sm::Worker";

/// The error of a command that the worker of the state machine is not there to take.
pub fn state_machine_gone<C: RaftTypeConfig>() -> (r: StorageError<C>)
    ensures
        r.subject == ErrorSubject::StateMachine,
        r.verb == ErrorVerb::Write,
        r.source.message() == ERR_NO_SM_WORKER@,
{
    StorageError::write_state_machine(C::ErrorSource::from_message(ERR_NO_SM_WORKER))
}

/// The error of entries up to `last` that the worker of the state machine is not there to apply,
/// where `message` tells why.
pub fn apply_not_sent<C: RaftTypeConfig>(last: LogId, message: &str) -> (r: StorageError<C>)
    ensures
        r.subject == ErrorSubject::Apply(last),
        r.verb == ErrorVerb::Write,
        r.source.message() == message@,
{
    StorageError::apply(last, C::ErrorSource::from_message(message))
}

/// A leader has a replication to each target and to no other node after the replications were made
/// anew.
pub proof fn streams_are_targets<C: RaftTypeConfig>(
    old: Map<u64, ReplicationHandle>,
    leader_vote: Vote,
    targets: Seq<TargetProgress>,
    close_old: bool,
    id: u64,
)
    ensures
        streams_after::<C>(old, leader_vote, targets, close_old).1.contains_key(id) <==> exists|
            k: int,
        |
            0 <= k < targets.len() && (#[trigger] targets[k]).target == id,
        streams_after::<C>(old, leader_vote, targets, close_old).0.contains_key(id)
            <==> old.contains_key(id) && !(exists|k: int|
            0 <= k < targets.len() && (#[trigger] targets[k]).target == id),
    decreases targets.len(),
{
    if targets.len() > 0 {
        let t = targets.drop_last();
        streams_are_targets::<C>(old, leader_vote, t, close_old, id);
        assert(targets[targets.len() - 1] == targets.last());
        if exists|k: int| 0 <= k < t.len() && (#[trigger] t[k]).target == id {
            let k = choose|k: int| 0 <= k < t.len() && (#[trigger] t[k]).target == id;
            assert(targets[k].target == id);
        }
        if exists|k: int| 0 <= k < targets.len() && (#[trigger] targets[k]).target == id {
            let k = choose|k: int| 0 <= k < targets.len() && (#[trigger] targets[k]).target == id;
            if k < t.len() {
                assert(t[k].target == id);
            }
        }
    }
}

} // verus!
