//! The handlers of the core of a node.

use std::collections::BTreeMap;
use vstd::prelude::*;
use crate::batch::Batch;
use crate::errors::{ClientWriteError, ForwardToLeader, LinearizableReadError, QuorumNotEnough};
use crate::log_id::LogId;
use crate::message::LinearizerOption;
use crate::raft_core::action::{CoreAction, Recorded};
use crate::raft_core::pending_reads::{Linearizer, PendingRead, PendingReadQueue};
use crate::raft_core::pending_reads;
use crate::raft_core::responders::ClientResponderQueue;
use crate::raft_core::state::{Candidate, Leader, RaftState};
use crate::time::{Duration, Instant};
use crate::type_config::RaftTypeConfig;
use crate::vote::Vote;

verus! {

/// The settings of a node that do not change.
#[derive(Clone, Copy, Debug, PartialEq, Eq, Structural)]
pub struct CoreConfig {
    /// Milliseconds between two heartbeats.
    pub heartbeat_interval: u64,
    /// Milliseconds for which an answer of another node is waited for.
    pub election_timeout_min: u64,
}

/// The settings of a node that may change while it runs.
#[derive(Clone, Copy, Debug, PartialEq, Eq, Structural)]
pub struct RuntimeConfig {
    pub enable_heartbeat: bool,
    pub enable_elect: bool,
    pub enable_pre_vote: bool,
}

/// The times that the protocol works with.
#[derive(Clone, Copy, Debug, PartialEq, Eq, Structural)]
pub struct TimerConfig {
    pub leader_lease: Duration,
    pub election_timeout: Duration,
    /// How much longer a node waits that has seen a greater log than its own.
    pub smaller_log_timeout: Duration,
}

/// A replication to another node.
#[derive(Clone, Copy, Debug, PartialEq, Eq, Structural)]
pub struct ReplicationHandle {
    pub stream_id: u64,
    /// Whether a snapshot is being transmitted.
    pub transmitting: bool,
}

/// The protocol state that the handlers read.
pub struct EngineState<N> {
    pub state: RaftState<N>,
    pub leader: Option<Leader>,
    pub candidate: Option<Candidate>,
    pub pre_candidate: Option<Candidate>,
    /// Whether another node has shown a greater log.
    pub greater_log: bool,
}

/// The core of a node.
pub struct RaftCore<C: RaftTypeConfig> {
    pub id: u64,
    pub config: CoreConfig,
    pub runtime_config: RuntimeConfig,
    pub timer_config: TimerConfig,
    pub engine: EngineState<C::Node>,
    /// Writers that wait for their entries to be applied.
    pub client_responders: ClientResponderQueue<u64>,
    /// Linearizable reads that wait for a quorum.
    pub pending_reads: PendingReadQueue,
    /// The replications to other nodes.
    pub replications: BTreeMap<u64, ReplicationHandle>,
    /// The log entry at which a snapshot was last tried.
    pub snapshot_tried_at: Option<LogId>,
    pub metrics_recorder: Option<u64>,
}

/// Telling a metrics recorder, if there is one.
pub open spec fn recorded<C: RaftTypeConfig>(
    recorder: Option<u64>,
    what: Recorded,
) -> Seq<CoreAction<C>> {
    match recorder {
        Some(r) => seq![CoreAction::Record { recorder: r, what }],
        None => Seq::empty(),
    }
}

/// Refusing the writers that wait for an answer.
pub open spec fn fail_writers<C: RaftTypeConfig>(
    responders: Seq<Option<u64>>,
    error: ForwardToLeader<C::Node>,
) -> Seq<CoreAction<C>>
    decreases responders.len(),
{
    if responders.len() == 0 {
        Seq::empty()
    } else {
        let before = fail_writers::<C>(responders.drop_last(), error);
        match responders.last() {
            Some(tx) => before.push(
                CoreAction::FailWrite { tx, error: ClientWriteError::ForwardToLeader(error) },
            ),
            None => before,
        }
    }
}

/// Refusing drained responders.
pub open spec fn fail_drained<C: RaftTypeConfig>(
    drained: Seq<(u64, u64)>,
    error: ForwardToLeader<C::Node>,
) -> Seq<CoreAction<C>> {
    drained.map_values(
        |x: (u64, u64)|
            CoreAction::<C>::FailWrite {
                tx: x.1,
                error: ClientWriteError::ForwardToLeader(error),
            },
    )
}

/// Answering waiting reads with an error.
pub open spec fn fail_reads<C: RaftTypeConfig>(
    reads: Seq<PendingRead>,
    error: LinearizableReadError<C::Node>,
) -> Seq<CoreAction<C>> {
    reads.map_values(
        |p: PendingRead| CoreAction::<C>::ReplyRead { tx: p.tx, result: Err(error) },
    )
}

/// Answering reads that have waited too long.
pub open spec fn expire_reads<C: RaftTypeConfig>(reads: Seq<PendingRead>) -> Seq<CoreAction<C>> {
    reads.map_values(
        |p: PendingRead|
            CoreAction::<C>::ReplyRead {
                tx: p.tx,
                result: Err(
                    LinearizableReadError::QuorumNotEnough(
                        QuorumNotEnough { min_quorum_acked_at: p.min_quorum_acked_at },
                    ),
                ),
            },
    )
}

/// Answering reads that a quorum has satisfied, with what is applied by now.
pub open spec fn satisfy_reads<C: RaftTypeConfig>(
    reads: Seq<PendingRead>,
    applied: Option<LogId>,
) -> Seq<CoreAction<C>> {
    reads.map_values(
        |p: PendingRead|
            CoreAction::<C>::ReplyRead {
                tx: p.tx,
                result: Ok(
                    Linearizer {
                        node_id: p.linearizer.node_id,
                        read_log_id: p.linearizer.read_log_id,
                        applied,
                    },
                ),
            },
    )
}

/// What becomes of a linearizable read.
pub enum ReadOutcome<N> {
    /// It is answered at once.
    Reply(Result<Linearizer, LinearizableReadError<N>>),
    /// It waits, perhaps for a heartbeat that is sent for it.
    Wait { heartbeat: bool, read: PendingRead },
}

/// Whether the vote under which a message was sent is the vote that this node holds in its role.
/// A node that left the role holds none.
pub open spec fn vote_matches(sent_vote: Vote, my_vote: Option<Vote>) -> bool {
    match my_vote {
        Some(v) => sent_vote.leader_id == v.leader_id,
        None => false,
    }
}

/// If a message is sent under a vote that this node no longer holds, it is stale and ignored.
pub fn does_vote_match(sent_vote: &Vote, my_vote: &Option<Vote>) -> (r: bool)
    ensures
        r == vote_matches(*sent_vote, *my_vote),
{
    match my_vote {
        Some(v) => sent_vote.leader_id == v.leader_id,
        None => false,
    }
}

impl<C: RaftTypeConfig> RaftCore<C> {
    /// Whether only the waiting reads may differ.
    pub open spec fn same_but_reads(self, other: Self) -> bool {
        &&& self.id == other.id
        &&& self.config == other.config
        &&& self.runtime_config == other.runtime_config
        &&& self.timer_config == other.timer_config
        &&& self.engine == other.engine
        &&& self.client_responders == other.client_responders
        &&& self.replications == other.replications
        &&& self.snapshot_tried_at == other.snapshot_tried_at
        &&& self.metrics_recorder == other.metrics_recorder
    }

    /// Whether only the waiting writers may differ.
    pub open spec fn same_but_responders(self, other: Self) -> bool {
        &&& self.id == other.id
        &&& self.config == other.config
        &&& self.runtime_config == other.runtime_config
        &&& self.timer_config == other.timer_config
        &&& self.engine == other.engine
        &&& self.pending_reads == other.pending_reads
        &&& self.replications == other.replications
        &&& self.snapshot_tried_at == other.snapshot_tried_at
        &&& self.metrics_recorder == other.metrics_recorder
    }

    /// Whether this node leads and does not hand its leadership over; else where to forward a
    /// request to.
    pub open spec fn leading(self) -> Result<(), ForwardToLeader<C::Node>> {
        match self.engine.leader {
            None => Err(self.engine.state.forward()),
            Some(l) => match l.transfer_to {
                Some(to) => Err(self.engine.state.forward_to(to)),
                None => Ok(()),
            },
        }
    }

    /// Whether this node may accept writes: it leads and its lease is valid.
    pub open spec fn writable(self) -> Result<(), ForwardToLeader<C::Node>> {
        match self.leading() {
            Err(e) => Err(e),
            Ok(()) => if self.engine.leader->0.lease_valid {
                Ok(())
            } else {
                Err(ForwardToLeader::<C::Node>::nowhere())
            },
        }
    }

    /// Ensure this node is the leader and is not transferring leadership.
    pub fn ensure_leader_handler(&self) -> (r: Result<&Leader, ForwardToLeader<C::Node>>)
        ensures
            match r {
                Ok(l) => self.leading() is Ok && self.engine.leader == Some(*l),
                Err(e) => self.leading() == Err::<(), ForwardToLeader<C::Node>>(e),
            },
    {
        match &self.engine.leader {
            None => Err(self.engine.state.forward_to_leader()),
            Some(l) => match l.transfer_to {
                Some(to) => Err(self.engine.state.new_forward_to_leader(to)),
                None => Ok(l),
            },
        }
    }

    /// Ensure this node has a valid leader lease and may accept new writes.
    pub fn ensure_writable_leader_handler(&self) -> (r: Result<&Leader, ForwardToLeader<C::Node>>)
        ensures
            match r {
                Ok(l) => self.writable() is Ok && self.engine.leader == Some(*l),
                Err(e) => self.writable() == Err::<(), ForwardToLeader<C::Node>>(e),
            },
    {
        match self.ensure_leader_handler() {
            Err(e) => Err(e),
            Ok(l) => if l.lease_valid {
                Ok(l)
            } else {
                Err(ForwardToLeader::empty())
            },
        }
    }

    /// What becomes of a linearizable read that comes at `now`.
    pub open spec fn read_outcome(
        self,
        now: Instant,
        option: LinearizerOption,
        tx: u64,
    ) -> ReadOutcome<C::Node> {
        let lease = self.timer_config.leader_lease;
        let age = option.max_age(lease);
        let wait = option.max_wait(lease);
        match self.leading() {
            Err(forward) => ReadOutcome::Reply(Err(LinearizableReadError::ForwardToLeader(forward))),
            Ok(()) => {
                let leader = self.engine.leader->0;
                let linearizer = Linearizer {
                    node_id: self.id,
                    read_log_id: leader.read_log_id(self.engine.state.local_committed),
                    applied: self.engine.state.io_applied,
                };
                let min_acked = Instant { nanos: (now.nanos - age.nanos) as u128 };
                if leader.self_quorum {
                    ReadOutcome::Reply(Ok(linearizer))
                } else if leader.last_quorum_acked is Some && now.nanos
                    < leader.last_quorum_acked->0.nanos + age.nanos {
                    ReadOutcome::Reply(Ok(linearizer))
                } else if wait.nanos == 0 {
                    ReadOutcome::Reply(
                        Err(
                            LinearizableReadError::QuorumNotEnough(
                                QuorumNotEnough { min_quorum_acked_at: min_acked },
                            ),
                        ),
                    )
                } else {
                    ReadOutcome::Wait {
                        heartbeat: option.heartbeat_if_quorum_ack_stale,
                        read: PendingRead {
                            min_quorum_acked_at: min_acked,
                            deadline: Instant { nanos: (now.nanos + wait.nanos) as u128 },
                            linearizer,
                            tx,
                        },
                    }
                }
            },
        }
    }

    /// The state and the actions after a linearizable read that came at `now`.
    pub open spec fn after_read(
        self,
        now: Instant,
        option: LinearizerOption,
        tx: u64,
        new: Self,
        actions: Seq<CoreAction<C>>,
    ) -> bool {
        &&& new.same_but_reads(self)
        &&& match self.read_outcome(now, option, tx) {
            ReadOutcome::Reply(result) => {
                &&& new.pending_reads@ == self.pending_reads@
                &&& actions =~= seq![CoreAction::<C>::ReplyRead { tx, result }]
            },
            ReadOutcome::Wait { heartbeat, read } => {
                let reads = self.pending_reads@.push(read);
                &&& new.pending_reads@ == reads
                &&& actions =~= (if heartbeat {
                    seq![CoreAction::<C>::SendHeartbeat { bypass_min_interval: true }]
                } else {
                    Seq::empty()
                }) + seq![
                    CoreAction::<C>::SetReadDeadline { deadline: pending_reads::earliest(reads) },
                ]
            },
        }
    }

    /// Whether a linearizable read that comes at `now` is answered at once: where this node does not
    /// lead, is a quorum by itself, or was acknowledged recently enough.
    pub open spec fn answers_at_once(self, now: Instant, option: LinearizerOption) -> bool {
        let age = option.max_age(self.timer_config.leader_lease);
        self.leading() is Ok ==> {
            let leader = self.engine.leader->0;
            ||| leader.self_quorum
            ||| leader.last_quorum_acked matches Some(t) && now.nanos < t.nanos + age.nanos
        }
    }

    /// Whether the times that a linearizable read works with can be represented.  One that is
    /// answered at once works with none, and one that does not wait has no deadline.
    pub open spec fn read_times_fit(self, now: Instant, option: LinearizerOption) -> bool {
        let lease = self.timer_config.leader_lease;
        let wait = option.max_wait(lease).nanos;
        self.answers_at_once(now, option) || {
            &&& option.max_age(lease).nanos <= now.nanos
            &&& wait == 0 || now.nanos + wait <= u128::MAX
        }
    }

    /// Whether the times that a linearizable read works with can be represented.
    pub(crate) fn do_read_times_fit(&self, now: Instant, option: &LinearizerOption) -> (r: bool)
        ensures
            r == self.read_times_fit(now, *option),
    {
        let lease = self.timer_config.leader_lease;
        let age = option.effective_max_quorum_ack_age(lease);
        let wait = option.effective_wait_timeout(lease);
        let at_once = match self.ensure_leader_handler() {
            Ok(l) => l.self_quorum || Self::is_fresh(&l.last_quorum_acked, now, age),
            Err(_) => true,
        };
        at_once || (age.nanos <= now.nanos && (wait.nanos == 0 || wait.nanos <= u128::MAX
            - now.nanos))
    }

    /// Whether an acknowledgement is younger than `age`.
    fn is_fresh(acked: &Option<Instant>, now: Instant, age: Duration) -> (r: bool)
        ensures
            r == (acked matches Some(t) && now.nanos < t.nanos + age.nanos),
    {
        match acked {
            Some(t) => match t.nanos.checked_add(age.nanos) {
                Some(x) => now.nanos < x,
                None => true,
            },
            None => false,
        }
    }

    /// Handle a request for a linearizable read.
    ///
    /// The read is answered once a quorum has confirmed this leader: at once where a quorum did so
    /// recently enough, else when it does.  An acknowledgement that is exactly as old as allowed is
    /// not fresh enough.
    pub fn handle_get_linearizer(
        &mut self,
        now: Instant,
        linearizer_option: LinearizerOption,
        tx: u64,
    ) -> (r: Vec<CoreAction<C>>)
        requires
            old(self).read_times_fit(now, linearizer_option),
        ensures
            old(self).after_read(now, linearizer_option, tx, *final(self), r@),
    {
        let leader_lease = self.timer_config.leader_lease;
        let max_age = linearizer_option.effective_max_quorum_ack_age(leader_lease);
        let wait_timeout = linearizer_option.effective_wait_timeout(leader_lease);
        let applied = self.engine.state.io_applied;
        let (linearizer, self_quorum, acked) = match self.ensure_leader_handler() {
            Ok(l) => (
                Linearizer {
                    node_id: self.id,
                    read_log_id: l.get_read_log_id(&self.engine.state.local_committed),
                    applied,
                },
                l.self_quorum,
                l.last_quorum_acked,
            ),
            Err(forward) => {
                return vec![CoreAction::ReplyRead {
                    tx,
                    result: Err(LinearizableReadError::ForwardToLeader(forward)),
                }];
            },
        };
        if self_quorum {
            return vec![CoreAction::ReplyRead { tx, result: Ok(linearizer) }];
        }
        if Self::is_fresh(&acked, now, max_age) {
            return vec![CoreAction::ReplyRead { tx, result: Ok(linearizer) }];
        }
        let min_quorum_acked_at = now.minus(max_age);
        if wait_timeout.is_zero() {
            return vec![CoreAction::ReplyRead {
                tx,
                result: Err(
                    LinearizableReadError::QuorumNotEnough(QuorumNotEnough { min_quorum_acked_at }),
                ),
            }];
        }
        let mut actions: Vec<CoreAction<C>> = Vec::new();
        if linearizer_option.heartbeat_if_quorum_ack_stale {
            actions.push(CoreAction::SendHeartbeat { bypass_min_interval: true });
        }
        let deadline = now.plus(wait_timeout);
        self.pending_reads.push(PendingRead { min_quorum_acked_at, deadline, linearizer, tx });
        actions.push(self.reschedule_pending_read_check());
        actions
    }

    /// Wake the core when the first waiting read reaches its deadline.
    pub fn reschedule_pending_read_check(&self) -> (r: CoreAction<C>)
        ensures
            r == (CoreAction::<C>::SetReadDeadline {
                deadline: pending_reads::earliest(self.pending_reads@),
            }),
    {
        CoreAction::SetReadDeadline { deadline: self.pending_reads.earliest_deadline() }
    }

    /// The actions of a write.
    pub open spec fn write_actions(
        self,
        payloads: Batch<C::Payload>,
        responders: Batch<Option<u64>>,
    ) -> Seq<CoreAction<C>> {
        match self.writable() {
            Err(e) => fail_writers::<C>(responders@, e),
            Ok(()) => seq![CoreAction::<C>::LeaderAppend { payloads, responders }],
        }
    }

    /// Write log entries to the cluster.
    ///
    /// The entries are appended by the engine, which hands the log ids to
    /// [`entries_appended`](RaftCore::entries_appended).  Where this node may not accept writes,
    /// every writer that waits for an answer is told where the leader is.
    pub fn write_entries(
        &self,
        payloads: Batch<C::Payload>,
        responders: Batch<Option<u64>>,
    ) -> (r: Vec<CoreAction<C>>)
        ensures
            r@ == self.write_actions(payloads, responders),
    {
        match self.ensure_writable_leader_handler() {
            Ok(_) => vec![CoreAction::LeaderAppend { payloads, responders }],
            Err(e) => Self::fail_writers_with(&responders, &e),
        }
    }

    /// Refuse the writers that wait for an answer.
    pub(crate) fn fail_writers_with(
        responders: &Batch<Option<u64>>,
        error: &ForwardToLeader<C::Node>,
    ) -> (r: Vec<CoreAction<C>>)
        ensures
            r@ == fail_writers::<C>(responders@, *error),
    {
        let mut actions: Vec<CoreAction<C>> = Vec::new();
        let mut i: usize = 0;
        while i < responders.len()
            invariant
                i <= responders@.len(),
                actions@ == fail_writers::<C>(responders@.take(i as int), *error),
            decreases responders@.len() - i,
        {
            assert(responders@.take(i + 1).drop_last() =~= responders@.take(i as int));
            match responders.get(i) {
                Some(tx) => {
                    actions.push(
                        CoreAction::FailWrite {
                            tx: *tx,
                            error: ClientWriteError::ForwardToLeader(error.duplicate()),
                        },
                    );
                },
                None => {},
            }
            i = i + 1;
        }
        assert(responders@.take(responders@.len() as int) =~= responders@);
        actions
    }

    /// The waiting writers after entries were appended: each writer waits at the index of its
    /// entry.
    pub open spec fn with_writers(
        queue: Seq<(u64, u64)>,
        log_ids: Seq<LogId>,
        responders: Seq<Option<u64>>,
    ) -> Seq<(u64, u64)>
        decreases responders.len(),
    {
        if responders.len() == 0 || log_ids.len() < responders.len() {
            queue
        } else {
            let n = responders.len() - 1;
            let before = Self::with_writers(queue, log_ids, responders.drop_last());
            match responders.last() {
                Some(tx) => before.push((log_ids[n].index, tx)),
                None => before,
            }
        }
    }

    /// The engine has appended entries: record the batch and let the writers wait.
    pub fn entries_appended(&mut self, log_ids: &Vec<LogId>, responders: &Batch<Option<u64>>) -> (r:
        Vec<CoreAction<C>>)
        requires
            log_ids@.len() == responders@.len(),
        ensures
            r@ == recorded::<C>(
                old(self).metrics_recorder,
                Recorded::WriteBatch(log_ids@.len() as u64),
            ),
            final(self).same_but_responders(*old(self)),
            final(self).client_responders@ == Self::with_writers(
                old(self).client_responders@,
                log_ids@,
                responders@,
            ),
    {
        let ghost queue = self.client_responders@;
        let mut i: usize = 0;
        while i < responders.len()
            invariant
                i <= responders@.len(),
                log_ids@.len() == responders@.len(),
                self.same_but_responders(*old(self)),
                self.client_responders@ == Self::with_writers(
                    queue,
                    log_ids@,
                    responders@.take(i as int),
                ),
            decreases responders@.len() - i,
        {
            assert(responders@.take(i + 1).drop_last() =~= responders@.take(i as int));
            match responders.get(i) {
                Some(tx) => {
                    self.client_responders.push(log_ids[i].index, *tx);
                },
                None => {},
            }
            i = i + 1;
        }
        assert(responders@.take(responders@.len() as int) =~= responders@);
        self.record(Recorded::WriteBatch(log_ids.len() as u64))
    }

    /// Tell the metrics recorder, if there is one.
    pub fn record(&self, what: Recorded) -> (r: Vec<CoreAction<C>>)
        ensures
            r@ == recorded::<C>(self.metrics_recorder, what),
    {
        match self.metrics_recorder {
            Some(recorder) => vec![CoreAction::Record { recorder, what }],
            None => Vec::new(),
        }
    }
}

} // verus!
