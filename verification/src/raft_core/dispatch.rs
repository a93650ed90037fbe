//! The messages, commands and notifications that a core handles.

use vstd::prelude::*;
use crate::batch::Batch;
use crate::entry::RaftPayload;
use crate::errors::{ChangeMembershipError, Fatal, StorageError};
use crate::log_id::{LeaderId, LogId};
use crate::log_id;
use crate::message::{AppendEntriesRequest, VoteRequest, VoteResponse};
use crate::raft_core::action::{Condition, CoreAction, Recorded, Response};
use crate::raft_core::handlers::{does_vote_match, EngineState, RaftCore, ReplicationHandle};
use crate::raft_core::handlers;
use crate::raft_core::notification::{Notification, SmResponse};
use crate::raft_core::raft_msg::{ExternalCommand, RaftMsg};
use crate::raft_core::state::{Candidate, Leader, ServerState};
use crate::sets;
use crate::storage::Snapshot;
use crate::time::{Duration, Instant};
use crate::type_config::RaftTypeConfig;
use crate::vote::{IOId, Vote};

verus! {

broadcast use vstd::std_specs::btree::group_btree_axioms;

/// A full snapshot to install.
pub struct InstallFullSnapshotRequest<N> {
    pub vote: Vote,
    pub snapshot: Snapshot<N, Vec<u8>>,
    pub tx: u64,
}

impl<C: RaftTypeConfig> RaftCore<C> {
    /// Handle a request for the vote of this node: the engine is asked, and hands its answer to
    /// [`vote_request_handled`](RaftCore::vote_request_handled).
    pub fn handle_vote_request(&self, rpc: VoteRequest, tx: u64) -> (r: Vec<CoreAction<C>>)
        ensures
            r@ == seq![CoreAction::<C>::HandleVoteRequest { rpc, tx }],
    {
        vec![CoreAction::HandleVoteRequest { rpc, tx }]
    }

    /// The engine has answered a request for the vote of this node.  The answer is sent when the
    /// vote is on disk.
    pub fn vote_request_handled(&self, resp: VoteResponse, tx: u64) -> (r: Vec<CoreAction<C>>)
        ensures
            r@ == handlers::recorded::<C>(self.metrics_recorder, Recorded::Vote).push(
                CoreAction::Respond {
                    when: Some(
                        Condition::IOFlushed { io_id: IOId::of_vote(self.engine.state.vote.vote) },
                    ),
                    resp: Response::Vote(resp),
                    tx,
                },
            ),
    {
        let mut actions = self.record(Recorded::Vote);
        actions.push(
            CoreAction::Respond {
                when: Some(Condition::IOFlushed { io_id: IOId::new(&self.engine.state.vote.vote) }),
                resp: Response::Vote(resp),
                tx,
            },
        );
        actions
    }

    /// Handle a request for the pre-vote of this node: the engine is asked, and hands its answer to
    /// [`pre_vote_request_handled`](RaftCore::pre_vote_request_handled).
    pub fn handle_pre_vote_request(&self, rpc: VoteRequest, tx: u64) -> (r: Vec<CoreAction<C>>)
        ensures
            r@ == seq![CoreAction::<C>::HandlePreVoteRequest { rpc, tx }],
    {
        vec![CoreAction::HandlePreVoteRequest { rpc, tx }]
    }

    /// The engine has answered a request for the pre-vote of this node.  A pre-vote stores nothing,
    /// so the answer is sent at once.
    pub fn pre_vote_request_handled(&self, resp: VoteResponse, tx: u64) -> (r: Vec<CoreAction<C>>)
        ensures
            r@ == seq![
                CoreAction::<C>::Respond { when: None, resp: Response::Vote(resp), tx },
            ],
    {
        vec![CoreAction::Respond { when: None, resp: Response::Vote(resp), tx }]
    }

    /// The actions of a request to append entries.
    pub open spec fn append_entries_actions(
        self,
        rpc: AppendEntriesRequest<C::Payload>,
        tx: u64,
    ) -> Seq<CoreAction<C>> {
        seq![
            CoreAction::<C>::HandleAppendEntries {
                vote: rpc.vote,
                prev_log_id: rpc.prev_log_id,
                entries: rpc.entries,
                tx,
            },
        ] + handlers::recorded::<C>(self.metrics_recorder, Recorded::Append) + seq![
            CoreAction::<C>::UpdateCommitted {
                committed_vote: rpc.vote.as_committed(),
                log_id: rpc.leader_commit,
            },
        ]
    }

    /// Handle a request to append entries: the engine stores them, then learns how far the leader
    /// has committed.
    pub fn handle_append_entries_request(
        &self,
        rpc: AppendEntriesRequest<C::Payload>,
        tx: u64,
    ) -> (r: Vec<CoreAction<C>>)
        ensures
            r@ == self.append_entries_actions(rpc, tx),
    {
        let committed_vote = rpc.vote.to_committed();
        let log_id = rpc.leader_commit;
        let mut actions = vec![
            CoreAction::HandleAppendEntries {
                vote: rpc.vote,
                prev_log_id: rpc.prev_log_id,
                entries: rpc.entries,
                tx,
            },
        ];
        let mut record = self.record(Recorded::Append);
        actions.append(&mut record);
        actions.push(CoreAction::UpdateCommitted { committed_vote, log_id });
        actions
    }

    /// Handle a full snapshot: the engine installs it.
    pub fn handle_install_full_snapshot_request(
        &self,
        req: InstallFullSnapshotRequest<C::Node>,
    ) -> (r: Vec<CoreAction<C>>)
        ensures
            r@ == seq![
                CoreAction::<C>::InstallSnapshot {
                    vote: req.vote,
                    snapshot: req.snapshot,
                    tx: req.tx,
                },
            ],
    {
        vec![CoreAction::InstallSnapshot { vote: req.vote, snapshot: req.snapshot, tx: req.tx }]
    }

    /// The actions of a write that a client expects a certain leader to take.
    pub open spec fn client_write_actions(
        self,
        payloads: Batch<C::Payload>,
        responders: Batch<Option<u64>>,
        expected_leader: Option<LeaderId>,
    ) -> Seq<CoreAction<C>> {
        let vote = self.engine.state.vote.vote;
        if expected_leader is Some && !(vote.committed && vote.leader_id == expected_leader->0) {
            handlers::fail_writers::<C>(responders@, self.engine.state.forward())
        } else {
            self.write_actions(payloads, responders)
        }
    }

    /// Handle a write.  A writer that expects another leader than the present one is told where the
    /// present one is.
    pub fn handle_client_write(
        &self,
        payloads: Batch<C::Payload>,
        responders: Batch<Option<u64>>,
        expected_leader: Option<LeaderId>,
    ) -> (r: Vec<CoreAction<C>>)
        ensures
            r@ == self.client_write_actions(payloads, responders, expected_leader),
    {
        match expected_leader {
            Some(expected) => {
                let vote = self.engine.state.vote.vote;
                if !(vote.is_committed() && vote.leader_id == expected) {
                    let forward = self.engine.state.forward_to_leader();
                    return Self::fail_writers_with(&responders, &forward);
                }
            },
            None => {},
        }
        self.write_entries(payloads, responders)
    }

    /// The actions where a leader hands its leadership over.
    pub open spec fn transfer_leader_actions(
        self,
        from: Vote,
        to: u64,
        last_log_id: Option<LogId>,
    ) -> Seq<CoreAction<C>> {
        let st = self.engine.state;
        if st.vote.vote != from {
            Seq::empty()
        } else if self.id == to && log_id::opt_at_most(last_log_id, st.last_log_id) {
            seq![CoreAction::<C>::DisableLease, CoreAction::<C>::ElectByTransfer]
        } else {
            seq![CoreAction::<C>::DisableLease]
        }
    }

    /// Handle the message of a leader that hands its leadership over: its lease ends.  The node
    /// that is to lead stands for election, provided its log is up to date.
    pub fn handle_transfer_leader(&self, from: Vote, to: u64, last_log_id: Option<LogId>) -> (r:
        Vec<CoreAction<C>>)
        ensures
            r@ == self.transfer_leader_actions(from, to, last_log_id),
    {
        let mut actions: Vec<CoreAction<C>> = Vec::new();
        if self.engine.state.vote.vote == from {
            actions.push(CoreAction::DisableLease);
            if self.id == to {
                if !log_id::opt_is_at_most(&last_log_id, &self.engine.state.last_log_id) {
                    return actions;
                }
                actions.push(CoreAction::ElectByTransfer);
            }
        }
        actions
    }

    /// Whether this node is a voter.
    pub open spec fn is_voter_spec(self) -> bool {
        self.engine.state.membership_state.effective.membership@.voters().contains(self.id)
    }

    /// The actions of a command that does not go through the Raft protocol.
    pub open spec fn external_actions(self, cmd: ExternalCommand) -> Seq<CoreAction<C>> {
        match cmd {
            ExternalCommand::Elect { pre_vote } => if self.engine.leader is Some
                || !self.is_voter_spec() {
                Seq::empty()
            } else if pre_vote {
                seq![CoreAction::<C>::PreElect]
            } else {
                seq![CoreAction::<C>::Elect]
            },
            ExternalCommand::Heartbeat => self.heartbeat_actions(),
            ExternalCommand::Snapshot => seq![CoreAction::<C>::TriggerSnapshot { at: None }],
            ExternalCommand::PurgeLog { upto } => seq![CoreAction::<C>::TriggerPurgeLog { upto }],
            ExternalCommand::TriggerTransferLeader { to } => seq![
                CoreAction::<C>::TriggerTransferLeader { to },
            ],
            ExternalCommand::AllowNextRevert { to, allow, tx } => if self.engine.leader is Some {
                seq![CoreAction::<C>::AllowNextRevert { to, allow, tx }]
            } else {
                seq![CoreAction::<C>::RefuseRevert { tx, error: self.engine.state.forward() }]
            },
            ExternalCommand::SetMetricsRecorder { .. } => Seq::empty(),
            ExternalCommand::RefreshServerState { vote, membership_log_id } => {
                let st = self.engine.state;
                let vote_unchanged = vote is None || st.vote.vote == vote->0;
                let membership_unchanged = membership_log_id is None
                    || st.membership_state.effective.log_id == membership_log_id;
                if vote_unchanged && membership_unchanged {
                    seq![CoreAction::<C>::RefreshServerState]
                } else {
                    Seq::empty()
                }
            },
        }
    }

    /// The metrics recorder after a command.
    pub open spec fn recorder_after(self, cmd: ExternalCommand) -> Option<u64> {
        match cmd {
            ExternalCommand::SetMetricsRecorder { recorder } => recorder,
            _ => self.metrics_recorder,
        }
    }

    /// Handle a command that does not go through the Raft protocol, such as to start an election or
    /// to build a snapshot.
    ///
    /// A leader starts no election: its heartbeats renew the leases that make the others refuse
    /// their votes.  A delayed request to compute the server state anew is dropped if the vote or
    /// the membership has changed since it was made.
    pub fn handle_external_command(&mut self, cmd: ExternalCommand) -> (r: Vec<CoreAction<C>>)
        ensures
            r@ == old(self).external_actions(cmd),
            *final(self) == (RaftCore {
                metrics_recorder: old(self).recorder_after(cmd),
                ..*old(self)
            }),
    {
        match cmd {
            ExternalCommand::Elect { pre_vote } => {
                if self.engine.leader.is_some() {
                    Vec::new()
                } else if self.engine.state.membership_state.effective.membership.is_voter(
                    self.id,
                ) {
                    if pre_vote {
                        vec![CoreAction::PreElect]
                    } else {
                        vec![CoreAction::Elect]
                    }
                } else {
                    Vec::new()
                }
            },
            ExternalCommand::Heartbeat => self.send_heartbeat().1,
            ExternalCommand::Snapshot => vec![self.trigger_snapshot(None)],
            ExternalCommand::PurgeLog { upto } => vec![CoreAction::TriggerPurgeLog { upto }],
            ExternalCommand::TriggerTransferLeader { to } => vec![
                CoreAction::TriggerTransferLeader { to },
            ],
            ExternalCommand::AllowNextRevert { to, allow, tx } => {
                if self.engine.leader.is_some() {
                    vec![CoreAction::AllowNextRevert { to, allow, tx }]
                } else {
                    vec![
                        CoreAction::RefuseRevert {
                            tx,
                            error: self.engine.state.forward_to_leader(),
                        },
                    ]
                }
            },
            ExternalCommand::SetMetricsRecorder { recorder } => {
                self.metrics_recorder = recorder;
                Vec::new()
            },
            ExternalCommand::RefreshServerState { vote, membership_log_id } => {
                let vote_unchanged = match vote {
                    Some(v) => self.engine.state.vote.vote == v,
                    None => true,
                };
                let membership_unchanged = membership_log_id.is_none()
                    || self.engine.state.membership_state.effective.log_id == membership_log_id;
                if vote_unchanged && membership_unchanged {
                    vec![CoreAction::RefreshServerState]
                } else {
                    Vec::new()
                }
            },
        }
    }

    /// Whether a message can be handled: a leader that changes its membership has one, an appended
    /// membership is in its payload, and the times of a read can be represented.
    pub open spec fn handles(self, now: Instant, msg: RaftMsg<C>) -> bool {
        match msg {
            RaftMsg::GetLinearizer { linearizer_option, .. } => self.read_times_fit(
                now,
                linearizer_option,
            ),
            RaftMsg::ChangeMembership { .. } => self.leading() is Ok
                ==> self.engine.state.membership_state.effective.membership@.configs.len() > 0,
            RaftMsg::AppendMembership { payload, .. } => payload.membership_spec() is Some,
            _ => true,
        }
    }

    /// Whether a message can be handled.
    pub fn can_handle(&self, now: Instant, msg: &RaftMsg<C>) -> (r: bool)
        ensures
            r == self.handles(now, *msg),
    {
        match msg {
            RaftMsg::GetLinearizer { linearizer_option, .. } => self.do_read_times_fit(
                now,
                linearizer_option,
            ),
            RaftMsg::ChangeMembership { .. } => self.ensure_leader_handler().is_err()
                || self.engine.state.membership_state.effective.membership.configs.len() > 0,
            RaftMsg::AppendMembership { payload, .. } => payload.get_membership().is_some(),
            _ => true,
        }
    }

    /// The state and the actions after a message.
    pub open spec fn after_api_msg(
        self,
        now: Instant,
        msg: RaftMsg<C>,
        validation: Result<(), ChangeMembershipError>,
        new: Self,
        actions: Seq<CoreAction<C>>,
    ) -> bool {
        match msg {
            RaftMsg::AppendEntries { rpc, tx } => new == self && actions
                =~= self.append_entries_actions(rpc, tx),
            RaftMsg::RequestVote { rpc, tx } => new == self && actions =~= seq![
                CoreAction::<C>::HandleVoteRequest { rpc, tx },
            ],
            RaftMsg::RequestPreVote { rpc, tx } => new == self && actions =~= seq![
                CoreAction::<C>::HandlePreVoteRequest { rpc, tx },
            ],
            RaftMsg::ClientWrite { payloads, responders, expected_leader } => new == self && actions
                =~= self.client_write_actions(payloads, responders, expected_leader),
            RaftMsg::GetLinearizer { linearizer_option, tx } => self.after_read(
                now,
                linearizer_option,
                tx,
                new,
                actions,
            ),
            RaftMsg::Initialize { members, tx } => new == self && self.initialize_actions(
                members@,
                tx,
                actions,
            ),
            RaftMsg::ChangeMembership { changes, payloads, retain, preconditions, tx } => new
                == self && self.change_membership_actions(
                changes,
                retain,
                preconditions@,
                payloads,
                tx,
                actions,
            ),
            RaftMsg::AppendMembership { payload, preconditions, tx } => new == self && actions
                =~= self.append_membership_actions(payload, preconditions@, validation, tx),
            RaftMsg::WithRaftState { req } => new == self && actions =~= seq![
                CoreAction::<C>::RunWithState { req },
            ],
            RaftMsg::HandleTransferLeader { from, to, last_log_id } => new == self && actions
                =~= self.transfer_leader_actions(from, to, last_log_id),
            RaftMsg::ExternalCommand { cmd } => {
                &&& actions =~= self.external_actions(cmd)
                &&& new == (RaftCore { metrics_recorder: self.recorder_after(cmd), ..self })
            },
        }
    }

    /// Handle a message of an application.
    ///
    /// `validation` tells whether the membership state admits the membership that an
    /// `AppendMembership` carries; the other messages do not use it.
    pub fn handle_api_msg(
        &mut self,
        now: Instant,
        msg: RaftMsg<C>,
        validation: Result<(), ChangeMembershipError>,
    ) -> (r: Vec<CoreAction<C>>)
        requires
            old(self).handles(now, msg),
        ensures
            old(self).after_api_msg(now, msg, validation, *final(self), r@),
    {
        match msg {
            RaftMsg::AppendEntries { rpc, tx } => self.handle_append_entries_request(rpc, tx),
            RaftMsg::RequestVote { rpc, tx } => self.handle_vote_request(rpc, tx),
            RaftMsg::RequestPreVote { rpc, tx } => self.handle_pre_vote_request(rpc, tx),
            RaftMsg::GetLinearizer { linearizer_option, tx } => self.handle_get_linearizer(
                now,
                linearizer_option,
                tx,
            ),
            RaftMsg::ClientWrite { payloads, responders, expected_leader } =>
            self.handle_client_write(payloads, responders, expected_leader),
            RaftMsg::Initialize { members, tx } => self.handle_initialize(members, tx),
            RaftMsg::ChangeMembership { changes, payloads, retain, preconditions, tx } =>
            self.change_membership(changes, retain, preconditions, payloads, tx),
            RaftMsg::AppendMembership { payload, preconditions, tx } => self.append_membership(
                payload,
                preconditions,
                validation,
                tx,
            ),
            RaftMsg::WithRaftState { req } => vec![CoreAction::RunWithState { req }],
            RaftMsg::HandleTransferLeader { from, to, last_log_id } => self.handle_transfer_leader(
                from,
                to,
                last_log_id,
            ),
            RaftMsg::ExternalCommand { cmd } => self.handle_external_command(cmd),
        }
    }

    /// Whether the election times can be represented.  Only a node that may stand for election and
    /// has been shown a greater log adds them up.
    pub open spec fn election_times_fit(self) -> bool {
        let may_stand = {
            &&& self.engine.state.server_state != ServerState::Leader
            &&& self.is_voter_spec()
            &&& self.runtime_config.enable_elect
        };
        may_stand && self.engine.greater_log ==> self.timer_config.election_timeout.nanos
            + self.timer_config.smaller_log_timeout.nanos <= u128::MAX
    }

    /// Whether a tick can be handled: the election times can be represented.
    pub fn can_tick(&self) -> (r: bool)
        ensures
            r == self.election_times_fit(),
    {
        let t = &self.timer_config;
        if self.engine.state.server_state != ServerState::Leader
            && self.engine.state.membership_state.effective.membership.is_voter(self.id)
            && self.runtime_config.enable_elect && self.engine.greater_log {
            t.election_timeout.nanos.checked_add(t.smaller_log_timeout.nanos).is_some()
        } else {
            true
        }
    }

    /// How long this node waits before it stands for election: longer if another node has shown a
    /// greater log.
    pub open spec fn election_timeout_spec(self) -> int {
        if self.engine.greater_log {
            self.timer_config.election_timeout.nanos + self.timer_config.smaller_log_timeout.nanos
        } else {
            self.timer_config.election_timeout.nanos as int
        }
    }

    /// Whether this node asks for pre-votes before it stands for election.  A single voter need
    /// not.
    pub open spec fn asks_pre_vote(self) -> bool {
        let voters = self.engine.state.membership_state.effective.membership@.voters();
        self.runtime_config.enable_pre_vote && voters.len() > 1
    }

    /// Whether a tick at `now` makes this node stand for election.
    pub open spec fn elects_at(self, now: Instant) -> bool {
        let voters = self.engine.state.membership_state.effective.membership@.voters();
        let timeout = self.election_timeout_spec();
        &&& self.engine.state.server_state != ServerState::Leader
        &&& self.is_voter_spec()
        &&& self.runtime_config.enable_elect
        &&& if voters.len() == 1 {
            self.engine.candidate is None
        } else {
            self.engine.state.vote.expired(now, Duration { nanos: timeout as u128 })
        }
        &&& !(self.asks_pre_vote() && self.engine.pre_candidate is Some && now.nanos
            < self.engine.pre_candidate->0.starting_time.nanos + timeout)
    }

    /// The election actions of a tick at `now`.
    pub open spec fn tick_election_actions(self, now: Instant) -> Seq<CoreAction<C>> {
        if self.elects_at(now) {
            if self.asks_pre_vote() {
                seq![CoreAction::<C>::ResetGreaterLog, CoreAction::<C>::PreElect]
            } else {
                seq![CoreAction::<C>::ResetGreaterLog, CoreAction::<C>::Elect]
            }
        } else {
            Seq::empty()
        }
    }

    /// Stand for election if it is time to.
    ///
    /// A single voter does so at once, unless it already stands.  One of several voters does so when
    /// its vote has expired; with pre-votes it asks the others first, unless it asked them less
    /// than an election timeout ago.
    pub fn handle_tick_election(&self, now: Instant) -> (r: Vec<CoreAction<C>>)
        requires
            self.election_times_fit(),
        ensures
            r@ == self.tick_election_actions(now),
    {
        if self.engine.state.server_state == ServerState::Leader {
            return Vec::new();
        }
        let membership = &self.engine.state.membership_state.effective.membership;
        if !membership.is_voter(self.id) {
            return Vec::new();
        }
        if !self.runtime_config.enable_elect {
            return Vec::new();
        }
        let mut election_timeout = self.timer_config.election_timeout;
        if self.engine.greater_log {
            election_timeout = Duration {
                nanos: election_timeout.nanos + self.timer_config.smaller_log_timeout.nanos,
            };
        }
        let voters = membership.voter_ids();
        proof {
            sets::listing_len(voters@, membership@.voters());
        }
        let voter_count = voters.len();
        if voter_count == 1 {
            if self.engine.candidate.is_some() {
                return Vec::new();
            }
        } else {
            if !self.engine.state.vote.is_expired(now, election_timeout) {
                return Vec::new();
            }
        }
        let pre_vote = self.runtime_config.enable_pre_vote && voter_count > 1;
        if pre_vote {
            match &self.engine.pre_candidate {
                Some(pc) => {
                    let in_flight = match pc.starting_time.nanos.checked_add(
                        election_timeout.nanos,
                    ) {
                        Some(end) => now.nanos < end,
                        None => true,
                    };
                    if in_flight {
                        return Vec::new();
                    }
                },
                None => {},
            }
        }
        if pre_vote {
            vec![CoreAction::ResetGreaterLog, CoreAction::PreElect]
        } else {
            vec![CoreAction::ResetGreaterLog, CoreAction::Elect]
        }
    }

    /// Handle a tick: check the election timer, then, with what the election made of the state, the
    /// heartbeat timer.
    pub fn handle_tick(&self, now: Instant) -> (r: Vec<CoreAction<C>>)
        requires
            self.election_times_fit(),
        ensures
            r@ == self.tick_election_actions(now).push(CoreAction::TickHeartbeat { now }),
    {
        let mut actions = self.handle_tick_election(now);
        actions.push(CoreAction::TickHeartbeat { now });
        actions
    }

    /// Whether a tick at `now` finds a heartbeat due.
    pub open spec fn heartbeat_due(self, now: Instant) -> bool {
        match self.engine.leader {
            Some(l) => now.nanos >= l.next_heartbeat.nanos,
            None => false,
        }
    }

    /// Check the heartbeat timer of a leader: a heartbeat that is due is sent if heartbeats are
    /// enabled, and the next one is due an interval after `later`, the time at which this one is
    /// done.
    pub fn tick_heartbeat(&mut self, now: Instant, later: Instant) -> (r: Vec<CoreAction<C>>)
        requires
            later.nanos + old(self).config.heartbeat_interval * 1_000_000 <= u128::MAX,
        ensures
            r@ == (if old(self).heartbeat_due(now) && old(self).runtime_config.enable_heartbeat {
                old(self).heartbeat_actions()
            } else {
                Seq::empty()
            }),
            if old(self).heartbeat_due(now) {
                *final(self) == (RaftCore {
                    engine: EngineState {
                        leader: Some(
                            Leader {
                                next_heartbeat: Instant {
                                    nanos: (later.nanos + old(self).config.heartbeat_interval
                                        * 1_000_000) as u128,
                                },
                                ..old(self).engine.leader->0
                            },
                        ),
                        ..old(self).engine
                    },
                    ..*old(self)
                })
            } else {
                *final(self) == *old(self)
            },
    {
        let due = match &self.engine.leader {
            Some(l) => now.nanos >= l.next_heartbeat.nanos,
            None => false,
        };
        if !due {
            return Vec::new();
        }
        let actions = if self.runtime_config.enable_heartbeat {
            self.send_heartbeat().1
        } else {
            Vec::new()
        };
        let interval = Duration::from_millis(self.config.heartbeat_interval);
        match &mut self.engine.leader {
            Some(l) => {
                l.next_heartbeat = later.plus(interval);
            },
            None => {},
        }
        actions
    }

    /// The actions after a write reached the disk.
    pub open spec fn local_io_actions(self, io_id: IOId) -> Seq<CoreAction<C>> {
        let flush = seq![CoreAction::<C>::FlushLog { io_id }];
        match (io_id, self.engine.leader) {
            (IOId::Log { committed_vote, log_id }, Some(l)) => if handlers::vote_matches(
                committed_vote,
                Some(l.committed_vote),
            ) {
                flush.push(CoreAction::UpdateLocalProgress { log_id })
            } else {
                flush
            },
            _ => flush,
        }
    }

    /// A write of the log or of the vote reached the disk.  A leader counts what it wrote under its
    /// own vote.
    pub fn handle_local_io(&self, io_id: IOId) -> (r: Vec<CoreAction<C>>)
        ensures
            r@ == self.local_io_actions(io_id),
    {
        let mut actions = vec![CoreAction::FlushLog { io_id }];
        match io_id {
            IOId::Log { committed_vote, log_id } => match &self.engine.leader {
                Some(l) => {
                    if does_vote_match(&committed_vote, &Some(l.committed_vote)) {
                        actions.push(CoreAction::UpdateLocalProgress { log_id });
                    }
                },
                None => {},
            },
            IOId::Vote(_) => {},
        }
        actions
    }

    /// The actions after the state machine finished a command.
    pub open spec fn sm_actions(self, res: SmResponse<C::Node>) -> Seq<CoreAction<C>> {
        match res {
            SmResponse::BuildSnapshotDone(meta) => seq![CoreAction::<C>::SnapshotBuilt { meta }],
            SmResponse::InstallSnapshot { committed_vote, log_id, meta } => {
                let flush = seq![
                    CoreAction::<C>::FlushLog { io_id: IOId::Log { committed_vote, log_id } },
                ];
                match meta {
                    Some(m) => match m.last_log_id {
                        Some(last) => flush + seq![
                            CoreAction::<C>::FlushApplied { log_id: last },
                            CoreAction::<C>::FlushSnapshot { log_id: last },
                        ],
                        None => flush,
                    },
                    None => flush,
                }
            },
            SmResponse::Apply(res) => seq![
                CoreAction::<C>::FlushApplied { log_id: res.last_applied },
            ],
        }
    }

    /// The state machine finished a command; its error stops the node.
    pub fn handle_state_machine_result(
        &self,
        command_result: Result<SmResponse<C::Node>, StorageError<C>>,
    ) -> (r: Result<Vec<CoreAction<C>>, Fatal<C>>)
        ensures
            match command_result {
                Ok(res) => r is Ok && r->Ok_0@ == self.sm_actions(res),
                Err(e) => r == Err::<Vec<CoreAction<C>>, Fatal<C>>(Fatal::StorageError(e)),
            },
    {
        let res = match command_result {
            Ok(res) => res,
            Err(e) => {
                return Err(Fatal::StorageError(e));
            },
        };
        match res {
            SmResponse::BuildSnapshotDone(meta) => Ok(vec![CoreAction::SnapshotBuilt { meta }]),
            SmResponse::InstallSnapshot { committed_vote, log_id, meta } => {
                let mut actions = vec![
                    CoreAction::FlushLog { io_id: IOId::Log { committed_vote, log_id } },
                ];
                match meta {
                    Some(m) => match m.last_log_id {
                        Some(last) => {
                            actions.push(CoreAction::FlushApplied { log_id: last });
                            actions.push(CoreAction::FlushSnapshot { log_id: last });
                        },
                        None => {},
                    },
                    None => {},
                }
                Ok(actions)
            },
            SmResponse::Apply(res) => Ok(
                vec![CoreAction::FlushApplied { log_id: res.last_applied }],
            ),
        }
    }

    /// The replications after one made progress: a snapshot that was in flight is done.
    pub open spec fn replications_after(
        self,
        target: u64,
        inflight_id: Option<u64>,
    ) -> Map<u64, ReplicationHandle> {
        let map = self.replications@;
        if inflight_id is Some && map.contains_key(target) && map[target].transmitting {
            map.insert(
                target,
                ReplicationHandle { stream_id: map[target].stream_id, transmitting: false },
            )
        } else {
            map
        }
    }

    /// The actions of a notification, unless it stops the node.
    pub open spec fn notification_actions(
        self,
        now: Instant,
        notify: Notification<C>,
    ) -> Seq<CoreAction<C>> {
        let my_vote = |c: Option<Candidate>|
            match c {
                Some(c) => Some(c.vote),
                None => None::<Vote>,
            };
        match notify {
            Notification::VoteResponse { target, resp, candidate_vote } =>
            if handlers::vote_matches(candidate_vote, my_vote(self.engine.candidate)) {
                seq![CoreAction::<C>::HandleVoteResponse { target, resp }]
            } else {
                Seq::empty()
            },
            Notification::PreVoteResponse { target, resp, candidate_vote } =>
            if handlers::vote_matches(candidate_vote, my_vote(self.engine.pre_candidate)) {
                seq![CoreAction::<C>::HandlePreVoteResponse { target, resp }]
            } else {
                Seq::empty()
            },
            Notification::HigherVote { target, higher, leader_vote } => {
                let mine = match self.engine.leader {
                    Some(l) => Some(l.committed_vote),
                    None => None,
                };
                if handlers::vote_matches(leader_vote, mine) {
                    seq![CoreAction::<C>::UpdateVote { higher }]
                } else {
                    Seq::empty()
                }
            },
            Notification::StorageError { error } => Seq::empty(),
            Notification::LocalIO { io_id } => self.local_io_actions(io_id),
            Notification::ReplicationProgress { stream_id, target, result, inflight_id } =>
            if self.engine.leader is Some {
                seq![
                    CoreAction::<C>::UpdateProgress { target, stream_id, result, inflight_id },
                ]
            } else {
                Seq::empty()
            },
            Notification::HeartbeatProgress { stream_id, sending_time, target } =>
            if self.engine.leader is Some {
                seq![CoreAction::<C>::UpdateLeaderClock { stream_id, target, sending_time }]
            } else {
                Seq::empty()
            },
            Notification::StateMachine { result } => match result {
                Ok(res) => self.sm_actions(res),
                Err(_) => Seq::empty(),
            },
            Notification::Tick { i } => self.tick_election_actions(now).push(
                CoreAction::TickHeartbeat { now },
            ),
            Notification::PendingReadDeadlineReached => self.pending_read_actions(now),
        }
    }

    /// The error with which a notification stops the node, if it does.
    pub open spec fn notification_error(notify: Notification<C>) -> Option<Fatal<C>> {
        match notify {
            Notification::StorageError { error } => Some(Fatal::StorageError(error)),
            Notification::StateMachine { result } => match result {
                Err(e) => Some(Fatal::StorageError(e)),
                Ok(_) => None,
            },
            _ => None,
        }
    }

    /// The state after a notification.
    pub open spec fn after_notification(
        self,
        now: Instant,
        notify: Notification<C>,
        new: Self,
    ) -> bool {
        match notify {
            Notification::ReplicationProgress { target, inflight_id, .. } => {
                &&& new.replications@ == self.replications_after(target, inflight_id)
                &&& new == (RaftCore { replications: new.replications, ..self })
            },
            Notification::PendingReadDeadlineReached => {
                &&& new.same_but_reads(self)
                &&& new.pending_reads@ == self.reads_left(now)
            },
            _ => new == self,
        }
    }

    /// Handle a notification.
    ///
    /// A message that was sent under a vote which this node no longer holds is ignored.  A failure of
    /// the store stops the node.
    pub fn handle_notification(&mut self, now: Instant, notify: Notification<C>) -> (r: Result<
        Vec<CoreAction<C>>,
        Fatal<C>,
    >)
        requires
            notify is Tick ==> old(self).election_times_fit(),
        ensures
            match r {
                Ok(actions) => {
                    &&& Self::notification_error(notify) is None
                    &&& actions@ == old(self).notification_actions(now, notify)
                },
                Err(e) => Self::notification_error(notify) == Some(e),
            },
            old(self).after_notification(now, notify, *final(self)),
    {
        match notify {
            Notification::VoteResponse { target, resp, candidate_vote } => {
                let my_vote = match &self.engine.candidate {
                    Some(c) => Some(c.vote),
                    None => None,
                };
                if does_vote_match(&candidate_vote, &my_vote) {
                    Ok(vec![CoreAction::HandleVoteResponse { target, resp }])
                } else {
                    Ok(Vec::new())
                }
            },
            Notification::PreVoteResponse { target, resp, candidate_vote } => {
                let my_vote = match &self.engine.pre_candidate {
                    Some(c) => Some(c.vote),
                    None => None,
                };
                if does_vote_match(&candidate_vote, &my_vote) {
                    Ok(vec![CoreAction::HandlePreVoteResponse { target, resp }])
                } else {
                    Ok(Vec::new())
                }
            },
            Notification::HigherVote { target: _, higher, leader_vote } => {
                let my_vote = match &self.engine.leader {
                    Some(l) => Some(l.committed_vote),
                    None => None,
                };
                if does_vote_match(&leader_vote, &my_vote) {
                    Ok(vec![CoreAction::UpdateVote { higher }])
                } else {
                    Ok(Vec::new())
                }
            },
            Notification::Tick { i: _ } => Ok(self.handle_tick(now)),
            Notification::StorageError { error } => Err(Fatal::StorageError(error)),
            Notification::LocalIO { io_id } => Ok(self.handle_local_io(io_id)),
            Notification::ReplicationProgress { stream_id, target, result, inflight_id } => {
                if inflight_id.is_some() {
                    match self.replications.get(&target) {
                        Some(h) => {
                            if h.transmitting {
                                let done = ReplicationHandle {
                                    stream_id: h.stream_id,
                                    transmitting: false,
                                };
                                self.replications.insert(target, done);
                            }
                        },
                        None => {},
                    }
                }
                if self.engine.leader.is_some() {
                    Ok(
                        vec![
                            CoreAction::UpdateProgress { target, stream_id, result, inflight_id },
                        ],
                    )
                } else {
                    Ok(Vec::new())
                }
            },
            Notification::HeartbeatProgress { stream_id, sending_time, target } => {
                if self.engine.leader.is_some() {
                    Ok(vec![CoreAction::UpdateLeaderClock { stream_id, target, sending_time }])
                } else {
                    Ok(Vec::new())
                }
            },
            Notification::StateMachine { result } => self.handle_state_machine_result(result),
            Notification::PendingReadDeadlineReached => Ok(self.process_pending_reads(now)),
        }
    }
}

} // verus!
