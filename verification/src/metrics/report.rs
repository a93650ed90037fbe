//! How the core of a node reports its metrics.

use std::collections::BTreeMap;
use vstd::prelude::*;
use crate::log_id::LogId;
use crate::log_id;
use crate::metrics::SerdeInstant;
use crate::metrics::raft_metrics::{
    DataMetricsView, HeartbeatMetrics, RaftDataMetrics, RaftMetrics, RaftServerMetrics,
    ReplicationMetrics, ServerMetricsView,
};
use crate::metrics::raft_metrics;
use crate::raft_core::handlers::RaftCore;
use crate::raft_core::state::TargetState;
use crate::time::Instant;
use crate::type_config::RaftTypeConfig;
use crate::vote::{IOId, Vote};

verus! {

broadcast use vstd::std_specs::btree::group_btree_axioms;

/// The metrics that a node reports.
pub struct MetricsReport<C: RaftTypeConfig> {
    pub data: RaftDataMetrics,
    pub server: RaftServerMetrics<C>,
    pub all: RaftMetrics<C>,
    /// The recorder that is told of the metrics, if there is one.
    pub recorder: Option<u64>,
}

/// Metrics to send.
#[derive(Clone, Copy, Debug, PartialEq, Eq, Structural)]
pub enum Publish {
    /// The data metrics.
    Data,
    /// The server metrics.
    Server,
    /// The metrics as a whole.
    All,
}

/// What a node tells of its progress and its metrics.
pub struct FlushedMetrics<C: RaftTypeConfig> {
    pub log_progress: Option<IOId>,
    pub commit_progress: Option<LogId>,
    pub apply_progress: Option<LogId>,
    pub snapshot_progress: Option<LogId>,
    pub report: MetricsReport<C>,
}

/// What each target is known to hold of the log.
pub open spec fn replication_of(targets: Seq<TargetState>) -> Map<u64, Option<LogId>>
    decreases targets.len(),
{
    if targets.len() == 0 {
        Map::empty()
    } else {
        replication_of(targets.drop_last()).insert(targets.last().id, targets.last().matching)
    }
}

/// When each target last acknowledged the leader.
pub open spec fn heartbeat_of(targets: Seq<TargetState>) -> Map<u64, Option<SerdeInstant<Instant>>>
    decreases targets.len(),
{
    if targets.len() == 0 {
        Map::empty()
    } else {
        heartbeat_of(targets.drop_last()).insert(
            targets.last().id,
            match targets.last().acked_at {
                Some(t) => Some(SerdeInstant { inner: t }),
                None => None,
            },
        )
    }
}

impl<C: RaftTypeConfig> RaftCore<C> {
    /// The vote that metrics show: the last one that was flushed, or the first one of this node.
    pub open spec fn shown_vote(self) -> Vote {
        match self.engine.state.log_progress.flushed {
            Some(io_id) => io_id.vote_of(),
            None => Vote::initial(self.id),
        }
    }

    /// When a quorum last acknowledged this leader, as metrics show it.
    pub open spec fn shown_acked(self) -> Option<SerdeInstant<Instant>> {
        match self.engine.leader {
            Some(l) => match l.last_quorum_acked {
                Some(t) => Some(SerdeInstant { inner: t }),
                None => None,
            },
            None => None,
        }
    }

    /// The data metrics of the node.
    pub open spec fn data_metrics(
        self,
        replication: Option<Map<u64, Option<LogId>>>,
        heartbeat: Option<Map<u64, Option<SerdeInstant<Instant>>>>,
    ) -> DataMetricsView {
        let st = self.engine.state;
        DataMetricsView {
            local_committed: st.local_committed,
            cluster_committed: st.cluster_committed,
            last_log: st.last_log_id,
            last_applied: st.io_applied,
            snapshot: st.io_snapshot,
            purged: st.io_purged,
            last_quorum_acked: self.shown_acked(),
            replication,
            heartbeat,
        }
    }

    /// The server metrics of the node.
    pub open spec fn server_metrics(self) -> ServerMetricsView<C::Node> {
        let st = self.engine.state;
        ServerMetricsView {
            id: self.id,
            vote: self.shown_vote(),
            state: st.server_state,
            current_leader: self.leader_id_spec(),
            membership_config: st.membership_state.effective@,
            committed_membership_config: st.membership_state.committed@,
        }
    }

    /// Whether `m` are the metrics of the node: its data metrics and its server metrics together,
    /// with the current term.
    pub open spec fn is_metrics(
        self,
        data: DataMetricsView,
        server: ServerMetricsView<C::Node>,
        m: RaftMetrics<C>,
    ) -> bool {
        &&& m.running_state is Ok
        &&& m.id == server.id
        &&& m.current_term == self.engine.state.vote.vote.leader_id.term
        &&& m.vote == server.vote
        &&& m.last_log_index == log_id::index_of(data.last_log)
        &&& m.local_committed == data.local_committed
        &&& m.cluster_committed == data.cluster_committed
        &&& m.last_applied == data.last_applied
        &&& m.snapshot == data.snapshot
        &&& m.purged == data.purged
        &&& m.state == server.state
        &&& m.current_leader == server.current_leader
        &&& m.last_quorum_acked == data.last_quorum_acked
        &&& m.membership_config@ == server.membership_config
        &&& m.committed_membership_config@ == server.committed_membership_config
        &&& raft_metrics::opt_map(m.heartbeat) == data.heartbeat
        &&& raft_metrics::opt_map(m.replication) == data.replication
    }

    /// Whether a report shows the state of the node.
    pub open spec fn is_report(
        self,
        replication: Option<Map<u64, Option<LogId>>>,
        heartbeat: Option<Map<u64, Option<SerdeInstant<Instant>>>>,
        report: MetricsReport<C>,
    ) -> bool {
        &&& report.data@ == self.data_metrics(replication, heartbeat)
        &&& report.server@ == self.server_metrics()
        &&& self.is_metrics(report.data@, report.server@, report.all)
        &&& report.recorder == self.metrics_recorder
    }

    /// Report the metrics of the node.
    ///
    /// The metrics as a whole are assembled from the data metrics and the server metrics, so that
    /// each of them is derived in one place.
    pub fn report_metrics(
        &self,
        replication: Option<ReplicationMetrics>,
        heartbeat: Option<HeartbeatMetrics>,
    ) -> (r: MetricsReport<C>)
        ensures
            self.is_report(
                raft_metrics::opt_map(replication),
                raft_metrics::opt_map(heartbeat),
                r,
            ),
    {
        let st = &self.engine.state;
        let last_quorum_acked = match self.last_quorum_acked_time() {
            Some(t) => Some(SerdeInstant::new(t)),
            None => None,
        };
        let vote = match &st.log_progress.flushed {
            Some(io_id) => io_id.to_app_vote(),
            None => Vote::new_with_default_term(self.id),
        };
        let replication_copy = match &replication {
            Some(m) => Some(m.clone()),
            None => None,
        };
        let heartbeat_copy = match &heartbeat {
            Some(m) => Some(m.clone()),
            None => None,
        };
        let data = RaftDataMetrics {
            last_log: st.last_log_id,
            local_committed: st.local_committed,
            cluster_committed: st.cluster_committed,
            last_applied: st.io_applied,
            snapshot: st.io_snapshot,
            purged: st.io_purged,
            last_quorum_acked,
            replication,
            heartbeat,
        };
        let server: RaftServerMetrics<C> = RaftServerMetrics {
            id: self.id,
            vote,
            state: st.server_state,
            current_leader: self.current_leader(),
            membership_config: st.membership_state.effective.clone(),
            committed_membership_config: st.membership_state.committed.clone(),
        };
        let all: RaftMetrics<C> = RaftMetrics {
            running_state: Ok(()),
            id: server.id,
            current_term: st.vote.vote.leader_id.term,
            vote: server.vote,
            last_log_index: log_id::opt_index(&data.last_log),
            local_committed: data.local_committed,
            cluster_committed: data.cluster_committed,
            last_applied: data.last_applied,
            snapshot: data.snapshot,
            purged: data.purged,
            state: server.state,
            current_leader: server.current_leader,
            last_quorum_acked: data.last_quorum_acked,
            membership_config: server.membership_config.clone(),
            committed_membership_config: server.committed_membership_config.clone(),
            heartbeat: heartbeat_copy,
            replication: replication_copy,
        };
        MetricsReport { data, server, all, recorder: self.metrics_recorder }
    }

    /// Whether this node leads, what its targets are known to hold and when they last acknowledged
    /// it.
    pub open spec fn is_flush(self, r: FlushedMetrics<C>) -> bool {
        let st = self.engine.state;
        &&& r.log_progress == st.log_progress.flushed
        &&& r.commit_progress == st.local_committed
        &&& r.apply_progress == st.io_applied
        &&& r.snapshot_progress == st.io_snapshot
        &&& match self.engine.leader {
            Some(l) => self.is_report(
                Some(replication_of(l.progress@)),
                Some(heartbeat_of(l.progress@)),
                r.report,
            ),
            None => self.is_report(None, None, r.report),
        }
    }

    /// Report the progress and the metrics of the node.
    pub fn flush_metrics(&self) -> (r: FlushedMetrics<C>)
        ensures
            self.is_flush(r),
    {
        let st = &self.engine.state;
        let (replication, heartbeat) = match &self.engine.leader {
            Some(leader) => {
                let mut replication: ReplicationMetrics = BTreeMap::new();
                let mut heartbeat: HeartbeatMetrics = BTreeMap::new();
                let mut i: usize = 0;
                while i < leader.progress.len()
                    invariant
                        i <= leader.progress.len(),
                        replication@ == replication_of(leader.progress@.take(i as int)),
                        heartbeat@ == heartbeat_of(leader.progress@.take(i as int)),
                    decreases leader.progress.len() - i,
                {
                    let t = leader.progress[i];
                    assert(leader.progress@.take(i + 1).drop_last() =~= leader.progress@.take(
                        i as int,
                    ));
                    replication.insert(t.id, t.matching);
                    let acked = match t.acked_at {
                        Some(x) => Some(SerdeInstant::new(x)),
                        None => None,
                    };
                    heartbeat.insert(t.id, acked);
                    i = i + 1;
                }
                assert(leader.progress@.take(leader.progress.len() as int) =~= leader.progress@);
                (Some(replication), Some(heartbeat))
            },
            None => (None, None),
        };
        FlushedMetrics {
            log_progress: st.log_progress.flushed,
            commit_progress: st.local_committed,
            apply_progress: st.io_applied,
            snapshot_progress: st.io_snapshot,
            report: self.report_metrics(replication, heartbeat),
        }
    }
}

impl<C: RaftTypeConfig> MetricsReport<C> {
    /// Which metrics are sent, and in which order.
    ///
    /// The data metrics and the server metrics are sent if they differ from those that were sent
    /// last.  The metrics as a whole are always sent, and after the other two, so that who sees them
    /// change finds the others up to date.
    pub open spec fn publish_spec(
        self,
        sent_data: DataMetricsView,
        sent_server: ServerMetricsView<C::Node>,
    ) -> Seq<Publish> {
        (if self.data@ != sent_data {
            seq![Publish::Data]
        } else {
            Seq::empty()
        }) + (if self.server@ != sent_server {
            seq![Publish::Server]
        } else {
            Seq::empty()
        }) + seq![Publish::All]
    }

    /// Which metrics are sent, and in which order, where `sent_data` and `sent_server` were sent
    /// last.
    pub fn publish_plan(
        &self,
        sent_data: &RaftDataMetrics,
        sent_server: &RaftServerMetrics<C>,
    ) -> (r: Vec<Publish>)
        ensures
            r@ == self.publish_spec(sent_data@, sent_server@),
    {
        let mut r: Vec<Publish> = Vec::new();
        if !self.data.same(sent_data) {
            r.push(Publish::Data);
        }
        if !self.server.same(sent_server) {
            r.push(Publish::Server);
        }
        r.push(Publish::All);
        assert(r@ =~= self.publish_spec(sent_data@, sent_server@));
        r
    }
}

/// What metrics tell of each target: the entry that it is known to hold and the time at which it last
/// acknowledged the leader, as the leader has them, and of nobody else.
pub proof fn metrics_tell_of_every_target(targets: Seq<TargetState>, k: int, id: u64)
    ensures
        0 <= k < targets.len() && (forall|j: int|
            k < j < targets.len() ==> (#[trigger] targets[j]).id != targets[k].id) ==> {
            let t = targets[k];
            &&& replication_of(targets).contains_key(t.id)
            &&& replication_of(targets)[t.id] == t.matching
            &&& heartbeat_of(targets).contains_key(t.id)
            &&& t.acked_at is None ==> heartbeat_of(targets)[t.id] is None
            &&& t.acked_at matches Some(x) ==> (heartbeat_of(targets)[t.id] matches Some(shown)
                && shown.inner == x)
        },
        (forall|j: int| 0 <= j < targets.len() ==> (#[trigger] targets[j]).id != id)
            ==> !replication_of(targets).contains_key(id) && !heartbeat_of(targets).contains_key(id),
    decreases targets.len(),
{
    if targets.len() > 0 {
        let rest = targets.drop_last();
        let n = targets.len() - 1;
        assert(targets[n] == targets.last());
        assert forall|j: int| 0 <= j < rest.len() implies #[trigger] rest[j] == targets[j] by {}
        metrics_tell_of_every_target(rest, k, id);
    }
}

/// The metrics show the state of the node, each value as itself: what the node knows to be committed
/// apart from what the cluster has committed, the effective membership apart from the committed one,
/// and so on.  The metrics as a whole show the same as the data metrics and the server metrics.
pub proof fn metrics_show_the_state<C: RaftTypeConfig>(
    core: RaftCore<C>,
    replication: Option<Map<u64, Option<LogId>>>,
    heartbeat: Option<Map<u64, Option<SerdeInstant<Instant>>>>,
    r: MetricsReport<C>,
)
    requires
        core.is_report(replication, heartbeat, r),
    ensures
        ({
            let st = core.engine.state;
            &&& r.data.last_log == st.last_log_id
            &&& r.data.local_committed == st.local_committed
            &&& r.data.cluster_committed == st.cluster_committed
            &&& r.data.last_applied == st.io_applied
            &&& r.data.snapshot == st.io_snapshot
            &&& r.data.purged == st.io_purged
            &&& r.server.id == core.id
            &&& r.server.state == st.server_state
            &&& r.server.membership_config@ == st.membership_state.effective@
            &&& r.server.committed_membership_config@ == st.membership_state.committed@
            &&& r.all.running_state is Ok
            &&& r.all.id == core.id
            &&& r.all.current_term == st.vote.vote.leader_id.term
            &&& r.all.local_committed == st.local_committed
            &&& r.all.cluster_committed == st.cluster_committed
            &&& r.all.last_applied == st.io_applied
            &&& r.all.snapshot == st.io_snapshot
            &&& r.all.purged == st.io_purged
            &&& r.all.state == st.server_state
            &&& r.all.membership_config@ == st.membership_state.effective@
            &&& r.all.committed_membership_config@ == st.membership_state.committed@
            &&& st.last_log_id is None ==> r.all.last_log_index is None
            &&& st.last_log_id matches Some(l) ==> r.all.last_log_index == Some(l.index)
            &&& r.all.vote == r.server.vote
            &&& r.all.current_leader == r.server.current_leader
            &&& r.all.last_quorum_acked == r.data.last_quorum_acked
            &&& r.recorder == core.metrics_recorder
        }),
{
}

/// The vote that metrics show is the one that is on disk, and the first one of this node before any
/// is.  The leader they show is that of the vote that the node holds, if a quorum granted it.
pub proof fn metrics_show_the_saved_vote<C: RaftTypeConfig>(
    core: RaftCore<C>,
    replication: Option<Map<u64, Option<LogId>>>,
    heartbeat: Option<Map<u64, Option<SerdeInstant<Instant>>>>,
    r: MetricsReport<C>,
)
    requires
        core.is_report(replication, heartbeat, r),
    ensures
        ({
            let held = core.engine.state.vote.vote;
            &&& match core.engine.state.log_progress.flushed {
                Some(IOId::Vote(v)) => r.server.vote == v,
                Some(IOId::Log { committed_vote, .. }) => r.server.vote == committed_vote,
                None => r.server.vote.leader_id.term == 0 && r.server.vote.leader_id.node_id
                    == core.id && !r.server.vote.committed,
            }
            &&& held.committed ==> r.server.current_leader == Some(held.leader_id.node_id)
            &&& !held.committed ==> r.server.current_leader is None
            &&& match core.engine.leader {
                Some(l) => match l.last_quorum_acked {
                    Some(t) => r.data.last_quorum_acked matches Some(shown) && shown.inner == t,
                    None => r.data.last_quorum_acked is None,
                },
                None => r.data.last_quorum_acked is None,
            }
        }),
{
}

/// A node tells how far it has flushed, committed, applied and snapshotted, each as itself.  It tells
/// of its targets while it leads, and of none otherwise.
pub proof fn progress_is_told_apart<C: RaftTypeConfig>(core: RaftCore<C>, r: FlushedMetrics<C>)
    requires
        core.is_flush(r),
    ensures
        r.log_progress == core.engine.state.log_progress.flushed,
        r.commit_progress == core.engine.state.local_committed,
        r.apply_progress == core.engine.state.io_applied,
        r.snapshot_progress == core.engine.state.io_snapshot,
        core.engine.leader is None ==> r.report.data.replication is None
            && r.report.data.heartbeat is None && r.report.all.replication is None
            && r.report.all.heartbeat is None,
        core.engine.leader matches Some(l) ==> {
            &&& r.report.data.replication matches Some(m) && m@ == replication_of(l.progress@)
            &&& r.report.data.heartbeat matches Some(m) && m@ == heartbeat_of(l.progress@)
            &&& r.report.all.replication matches Some(m) && m@ == replication_of(l.progress@)
            &&& r.report.all.heartbeat matches Some(m) && m@ == heartbeat_of(l.progress@)
        },
{
}

/// Metrics that did not change are not sent again, but the metrics as a whole are sent every time,
/// and last.
pub proof fn changed_metrics_are_sent<C: RaftTypeConfig>(
    r: MetricsReport<C>,
    sent_data: DataMetricsView,
    sent_server: ServerMetricsView<C::Node>,
)
    ensures
        ({
            let plan = r.publish_spec(sent_data, sent_server);
            &&& plan.len() > 0
            &&& plan.last() == Publish::All
            &&& plan.contains(Publish::Data) <==> r.data@ != sent_data
            &&& plan.contains(Publish::Server) <==> r.server@ != sent_server
            &&& r.data@ != sent_data ==> plan[0] == Publish::Data
            &&& plan.len() == 1 + (if r.data@ != sent_data {
                1int
            } else {
                0
            }) + (if r.server@ != sent_server {
                1int
            } else {
                0
            })
        }),
{
    let plan = r.publish_spec(sent_data, sent_server);
    if r.data@ != sent_data {
        assert(plan[0] == Publish::Data);
        if r.server@ != sent_server {
            assert(plan[1] == Publish::Server);
        }
    } else if r.server@ != sent_server {
        assert(plan[0] == Publish::Server);
    }
}

} // verus!
