//! Setting up and closing the replication to a node.

use vstd::prelude::*;
use vstd::string::*;
use crate::async_runtime::watch::{Shared, WatchReceiver, WatchSender};
use crate::log_id::LogId;
use crate::raft_core::handlers::{CoreConfig, RaftCore, ReplicationHandle};
use crate::raft_core::heartbeat::TargetProgress;
use crate::text;
use crate::type_config::RaftTypeConfig;
use crate::vote::{IOId, Vote};

verus! {

/// What a replication to a node works with.
#[derive(Clone, Copy, Debug, PartialEq, Eq, Structural)]
pub struct ReplicationContext {
    /// The leader.
    pub id: u64,
    pub target: u64,
    pub leader_vote: Vote,
    pub stream_id: u64,
    pub config: CoreConfig,
}

/// How far a replication is when it starts.
#[derive(Clone, Copy, Debug, PartialEq, Eq, Structural)]
pub struct ReplicationProgress {
    pub local_committed: Option<LogId>,
    /// The last log entry that the target is known to hold.
    pub remote_matched: Option<LogId>,
}

/// A replication that is to be spawned.
#[derive(Clone, Copy, Debug, PartialEq, Eq, Structural)]
pub struct ReplicationSpawn {
    pub handle: ReplicationHandle,
    pub context: ReplicationContext,
    pub progress: ReplicationProgress,
}

/// What a replication watches.
#[derive(Clone, Copy, Debug, PartialEq, Eq, Structural)]
pub struct EventWatcher {
    /// What to replicate.
    pub replicate_rx: WatchReceiver,
    /// The committed log id.
    pub committed_rx: WatchReceiver,
    /// The last write that was accepted.
    pub io_accepted_rx: WatchReceiver,
    /// The last write that was submitted.
    pub io_submitted_rx: WatchReceiver,
}

/// What a node tells its replications.
pub struct IOBroadcast {
    pub committed: Shared<Option<LogId>>,
    pub accepted: Shared<IOId>,
    pub submitted: Shared<IOId>,
}

impl IOBroadcast {
    /// Another receiver on each channel, which has seen its latest value.
    pub fn new_event_watcher(&mut self, replicate_rx: WatchReceiver) -> (r: EventWatcher)
        requires
            old(self).committed.rx_count < usize::MAX,
            old(self).accepted.rx_count < usize::MAX,
            old(self).submitted.rx_count < usize::MAX,
        ensures
            r.replicate_rx == replicate_rx,
            r.committed_rx.seen_version == old(self).committed.version,
            r.committed_rx.waker_id == old(self).committed.next_waker_id,
            r.io_accepted_rx.seen_version == old(self).accepted.version,
            r.io_accepted_rx.waker_id == old(self).accepted.next_waker_id,
            r.io_submitted_rx.seen_version == old(self).submitted.version,
            r.io_submitted_rx.waker_id == old(self).submitted.next_waker_id,
            final(self).committed == (Shared {
                rx_count: (old(self).committed.rx_count + 1) as usize,
                next_waker_id: old(self).committed.next_waker_id.wrapping_add(1),
                ..old(self).committed
            }),
            final(self).accepted == (Shared {
                rx_count: (old(self).accepted.rx_count + 1) as usize,
                next_waker_id: old(self).accepted.next_waker_id.wrapping_add(1),
                ..old(self).accepted
            }),
            final(self).submitted == (Shared {
                rx_count: (old(self).submitted.rx_count + 1) as usize,
                next_waker_id: old(self).submitted.next_waker_id.wrapping_add(1),
                ..old(self).submitted
            }),
    {
        let tx = WatchSender;
        EventWatcher {
            replicate_rx,
            committed_rx: tx.subscribe(&mut self.committed),
            io_accepted_rx: tx.subscribe(&mut self.accepted),
            io_submitted_rx: tx.subscribe(&mut self.submitted),
        }
    }
}

impl<C: RaftTypeConfig> RaftCore<C> {
    /// What the replication to a node works with.
    pub open spec fn replication_context(self, leader_vote: Vote, prog: TargetProgress) ->
        ReplicationContext {
        ReplicationContext {
            id: self.id,
            target: prog.target,
            leader_vote,
            stream_id: prog.stream_id,
            config: self.config,
        }
    }

    /// What the replication to a node works with.
    pub fn new_replication_context(&self, leader_vote: Vote, prog: &TargetProgress) -> (r:
        ReplicationContext)
        ensures
            r == self.replication_context(leader_vote, *prog),
    {
        ReplicationContext {
            id: self.id,
            target: prog.target,
            leader_vote,
            stream_id: prog.stream_id,
            config: self.config,
        }
    }

    /// What the transmission of a snapshot to a node works with.
    pub fn new_replication_task_context(
        &self,
        leader_vote: Vote,
        stream_id: u64,
        target: u64,
    ) -> (r: ReplicationContext)
        ensures
            r == self.replication_context(leader_vote, TargetProgress { target, stream_id }),
    {
        self.new_replication_context(leader_vote, &TargetProgress { target, stream_id })
    }

    /// The handle of a replication to a node and what the replication works with.
    pub fn new_replication(&self, leader_vote: Vote, prog: &TargetProgress) -> (r: (
        ReplicationHandle,
        ReplicationContext,
    ))
        ensures
            r.0 == (ReplicationHandle { stream_id: prog.stream_id, transmitting: false }),
            r.1 == self.replication_context(leader_vote, *prog),
    {
        (
            ReplicationHandle { stream_id: prog.stream_id, transmitting: false },
            self.new_replication_context(leader_vote, prog),
        )
    }

    /// The replication to a node that is known to hold the log up to `matching`.
    pub fn spawn_replication_stream(
        &self,
        leader_vote: Vote,
        prog: &TargetProgress,
        matching: Option<LogId>,
    ) -> (r: ReplicationSpawn)
        ensures
            r == (ReplicationSpawn {
                handle: ReplicationHandle { stream_id: prog.stream_id, transmitting: false },
                context: self.replication_context(leader_vote, *prog),
                progress: ReplicationProgress {
                    local_committed: self.engine.state.local_committed,
                    remote_matched: matching,
                },
            }),
    {
        let (handle, context) = self.new_replication(leader_vote, prog);
        ReplicationSpawn {
            handle,
            context,
            progress: ReplicationProgress {
                local_committed: self.engine.state.local_committed,
                remote_matched: matching,
            },
        }
    }
}

/// How a request for the snapshot of the state machine ends.
pub enum SnapshotRead<S> {
    /// The worker of the state machine is gone.
    NoWorker,
    /// The worker went before it answered.
    NoAnswer,
    /// The worker answered with its snapshot, if it has one.
    Answer(Option<S>),
}

/// The error of a request that finds no worker.
pub const ERR_NO_WORKER: &'static str = "failed to upgrade cmd_tx, sm::Worker may have shutdown";

/// The error of a request that is not answered.
pub const ERR_NO_ANSWER: &'static str = "failed to receive snapshot, sm::Worker may have shutdown";

/// Reads the snapshot of the state machine.
#[derive(Clone, Copy, Debug, PartialEq, Eq, Structural)]
pub struct SnapshotReader;

impl SnapshotReader {
    /// The snapshot, if there is one; an error if the worker of the state machine has shut down.
    pub fn get_snapshot<S>(&self, read: SnapshotRead<S>) -> (r: Result<Option<S>, &'static str>)
        ensures
            match read {
                SnapshotRead::NoWorker => r matches Err(e) && e@ == ERR_NO_WORKER@,
                SnapshotRead::NoAnswer => r matches Err(e) && e@ == ERR_NO_ANSWER@,
                SnapshotRead::Answer(s) => r == Ok::<Option<S>, &'static str>(s),
            },
    {
        match read {
            SnapshotRead::NoWorker => Err(ERR_NO_WORKER),
            SnapshotRead::NoAnswer => Err(ERR_NO_ANSWER),
            SnapshotRead::Answer(s) => Ok(s),
        }
    }
}

/// The text of the progress of several nodes, given the text of each: `{<a>, <b>}`.
#[derive(Clone, Debug, PartialEq, Eq)]
pub struct DisplayVecProgress {
    pub entries: Vec<String>,
}

impl DisplayVecProgress {
    /// `{<a>, <b>}`.
    pub open spec fn text(self) -> Seq<char> {
        "{"@ + text::join_spec(text::views(self.entries@), ", "@) + "}"@
    }

    /// `{<a>, <b>}`.
    pub fn to_string(&self) -> (r: String)
        ensures
            r@ == self.text(),
    {
        let t = text::join(&self.entries, ", ");
        "{".to_owned().concat(t.as_str()).concat("}")
    }
}

} // verus!
