//! The metrics of a node.

use std::collections::BTreeMap;
use std::sync::Arc;
use vstd::prelude::*;
use vstd::string::*;
use crate::errors::Fatal;
use crate::log_id::LogId;
use crate::log_id;
use crate::metrics::SerdeInstant;
use crate::raft_core::state::ServerState;
use crate::seqs;
use crate::sets;
use crate::storage::{StoredMembership, StoredMembershipView};
use crate::text;
use crate::time::Instant;
use crate::type_config::RaftTypeConfig;
use crate::vote::{vote_texts_tell_votes_apart, Vote};

verus! {

broadcast use vstd::std_specs::btree::group_btree_axioms;

/// What each node is known to hold of the log.
pub type ReplicationMetrics = BTreeMap<u64, Option<LogId>>;

/// When each node last acknowledged the leader.
pub type HeartbeatMetrics = BTreeMap<u64, Option<SerdeInstant<Instant>>>;

/// The contents of an optional map.
pub open spec fn opt_map<V>(m: Option<BTreeMap<u64, V>>) -> Option<Map<u64, V>> {
    match m {
        Some(x) => Some(x@),
        None => None,
    }
}

/// The text of an optional number, `"None"` without one.
pub open spec fn opt_number_spec(n: Option<u64>) -> Seq<char> {
    match n {
        Some(x) => text::decimal(x as nat),
        None => "None"@,
    }
}

/// The text of an optional number, `"None"` without one.
pub fn opt_number_text(n: &Option<u64>) -> (r: String)
    ensures
        r@ == opt_number_spec(*n),
{
    match n {
        Some(x) => text::u64_text(*x),
        None => "None".to_owned(),
    }
}

/// The texts of the parts of metrics that are not texts of the metrics themselves: of a reading of
/// the clock, of the time since then, of memberships and of maps.
pub struct MetricsTexts<'a> {
    pub quorum_acked_time: &'a str,
    pub quorum_acked_ago: &'a str,
    pub membership: &'a str,
    pub committed_membership: &'a str,
    pub replication: &'a str,
    pub heartbeat: &'a str,
}

/// `t` if there is something to write, else `"None"`.
pub open spec fn given(present: bool, t: Seq<char>) -> Seq<char> {
    if present {
        t
    } else {
        "None"@
    }
}

/// The metrics of a node.
pub struct RaftMetrics<C: RaftTypeConfig> {
    /// Whether the node runs, or the error with which it stopped.
    pub running_state: Result<(), Fatal<C>>,
    /// The id of the node.
    pub id: u64,
    /// The current term.
    pub current_term: u64,
    /// The last vote that was flushed.
    pub vote: Vote,
    /// The index of the last log entry.
    pub last_log_index: Option<u64>,
    /// The last log entry that this node knows to be committed and may apply.
    pub local_committed: Option<LogId>,
    /// The last log entry that a quorum holds, as the leader reported.
    pub cluster_committed: Option<LogId>,
    /// The last log entry that was applied.
    pub last_applied: Option<LogId>,
    /// The last log entry that the snapshot covers.
    pub snapshot: Option<LogId>,
    /// The last log entry that was purged.
    pub purged: Option<LogId>,
    /// What the node does.
    pub state: ServerState,
    /// The leader.
    pub current_leader: Option<u64>,
    /// When a quorum last acknowledged this leader.
    pub last_quorum_acked: Option<SerdeInstant<Instant>>,
    /// The membership in effect.
    pub membership_config: Arc<StoredMembership<C::Node>>,
    /// The last committed membership.
    pub committed_membership_config: Arc<StoredMembership<C::Node>>,
    /// When each node last acknowledged this leader.
    pub heartbeat: Option<HeartbeatMetrics>,
    /// What each node is known to hold of the log, while this node leads.
    pub replication: Option<ReplicationMetrics>,
}

impl<C: RaftTypeConfig> RaftMetrics<C> {
    /// The metrics of a node that has not started.
    pub fn new_initial(id: u64) -> (r: Self)
        ensures
            r.running_state is Ok,
            r.id == id,
            r.current_term == 0,
            r.vote == Vote::initial(id),
            r.last_log_index is None,
            r.local_committed is None,
            r.cluster_committed is None,
            r.last_applied is None,
            r.snapshot is None,
            r.purged is None,
            r.state == ServerState::Follower,
            r.current_leader is None,
            r.last_quorum_acked is None,
            r.membership_config@ == StoredMembership::<C::Node>::empty_view(),
            r.committed_membership_config@ == StoredMembership::<C::Node>::empty_view(),
            r.heartbeat is None,
            r.replication is None,
    {
        RaftMetrics {
            running_state: Ok(()),
            id,
            current_term: 0,
            vote: Vote::new_with_default_term(id),
            last_log_index: None,
            local_committed: None,
            cluster_committed: None,
            last_applied: None,
            snapshot: None,
            purged: None,
            state: ServerState::Follower,
            current_leader: None,
            last_quorum_acked: None,
            membership_config: Arc::new(StoredMembership::empty()),
            committed_membership_config: Arc::new(StoredMembership::empty()),
            heartbeat: None,
            replication: None,
        }
    }

    /// The metrics of a node that stopped.
    pub fn into_shutdown(self, err: Fatal<C>) -> (r: Self)
        ensures
            r == (RaftMetrics { state: ServerState::Shutdown, running_state: Err(err), ..self }),
    {
        let mut m = self;
        m.state = ServerState::Shutdown;
        m.running_state = Err(err);
        m
    }

    /// The metrics in a line.
    pub open spec fn text(self, t: MetricsTexts) -> Seq<char> {
        "Metrics{"@ + "id:"@ + text::decimal(self.id as nat) + ", "@ + self.state.text()
            + ", term:"@ + text::decimal(self.current_term as nat) + ", vote:"@ + self.vote.text()
            + ", last_log:"@ + opt_number_spec(self.last_log_index) + ", local_committed:"@
            + log_id::opt_log_id_spec(self.local_committed) + ", cluster_committed:"@
            + log_id::opt_log_id_spec(self.cluster_committed) + ", last_applied:"@
            + log_id::opt_log_id_spec(self.last_applied) + ", leader:"@ + opt_number_spec(
            self.current_leader,
        ) + (if self.last_quorum_acked is Some {
            "(quorum_acked_time:"@ + t.quorum_acked_time@ + ", "@ + t.quorum_acked_ago@ + " ago)"@
        } else {
            "(quorum_acked_time:None)"@
        }) + ", membership:"@ + t.membership@ + ", committed_membership:"@
            + t.committed_membership@ + ", snapshot:"@ + log_id::opt_log_id_spec(self.snapshot)
            + ", purged:"@ + log_id::opt_log_id_spec(self.purged) + ", replication:{"@ + given(
            self.replication is Some,
            t.replication@,
        ) + "}, heartbeat:{"@ + given(self.heartbeat is Some, t.heartbeat@) + "}"@ + "}"@
    }

    /// The metrics in a line, with the texts of the parts that are not texts of the metrics
    /// themselves.
    pub fn to_string_with(&self, t: &MetricsTexts) -> (r: String)
        ensures
            r@ == self.text(*t),
    {
        let id = text::u64_text(self.id);
        let term = text::u64_text(self.current_term);
        let vote = self.vote.to_string();
        let last_log = opt_number_text(&self.last_log_index);
        let local = log_id::opt_log_id_text(&self.local_committed);
        let cluster = log_id::opt_log_id_text(&self.cluster_committed);
        let applied = log_id::opt_log_id_text(&self.last_applied);
        let leader = opt_number_text(&self.current_leader);
        let snapshot = log_id::opt_log_id_text(&self.snapshot);
        let purged = log_id::opt_log_id_text(&self.purged);
        let acked = match &self.last_quorum_acked {
            Some(_) => "(quorum_acked_time:".to_owned().concat(t.quorum_acked_time).concat(
                ", ",
            ).concat(t.quorum_acked_ago).concat(" ago)"),
            None => "(quorum_acked_time:None)".to_owned(),
        };
        let replication = match &self.replication {
            Some(_) => t.replication,
            None => "None",
        };
        let heartbeat = match &self.heartbeat {
            Some(_) => t.heartbeat,
            None => "None",
        };
        let head = "Metrics{".to_owned().concat("id:").concat(id.as_str()).concat(", ").concat(
            self.state.as_str(),
        ).concat(", term:").concat(term.as_str()).concat(", vote:").concat(vote.as_str()).concat(
            ", last_log:",
        ).concat(last_log.as_str()).concat(", local_committed:").concat(local.as_str()).concat(
            ", cluster_committed:",
        ).concat(cluster.as_str()).concat(", last_applied:").concat(applied.as_str()).concat(
            ", leader:",
        ).concat(leader.as_str());
        head.concat(acked.as_str()).concat(", membership:").concat(t.membership).concat(
            ", committed_membership:",
        ).concat(t.committed_membership).concat(", snapshot:").concat(snapshot.as_str()).concat(
            ", purged:",
        ).concat(purged.as_str()).concat(", replication:{").concat(replication).concat(
            "}, heartbeat:{",
        ).concat(heartbeat).concat("}").concat("}")
    }
}

/// The metrics of the data of a node.
pub struct RaftDataMetrics {
    pub local_committed: Option<LogId>,
    pub cluster_committed: Option<LogId>,
    pub last_log: Option<LogId>,
    pub last_applied: Option<LogId>,
    pub snapshot: Option<LogId>,
    pub purged: Option<LogId>,
    pub last_quorum_acked: Option<SerdeInstant<Instant>>,
    pub replication: Option<ReplicationMetrics>,
    pub heartbeat: Option<HeartbeatMetrics>,
}

/// The metrics of the data of a node, as mathematics.
#[verifier::ext_equal]
pub struct DataMetricsView {
    pub local_committed: Option<LogId>,
    pub cluster_committed: Option<LogId>,
    pub last_log: Option<LogId>,
    pub last_applied: Option<LogId>,
    pub snapshot: Option<LogId>,
    pub purged: Option<LogId>,
    pub last_quorum_acked: Option<SerdeInstant<Instant>>,
    pub replication: Option<Map<u64, Option<LogId>>>,
    pub heartbeat: Option<Map<u64, Option<SerdeInstant<Instant>>>>,
}

impl View for RaftDataMetrics {
    type V = DataMetricsView;

    open spec fn view(&self) -> DataMetricsView {
        DataMetricsView {
            local_committed: self.local_committed,
            cluster_committed: self.cluster_committed,
            last_log: self.last_log,
            last_applied: self.last_applied,
            snapshot: self.snapshot,
            purged: self.purged,
            last_quorum_acked: self.last_quorum_acked,
            replication: opt_map(self.replication),
            heartbeat: opt_map(self.heartbeat),
        }
    }
}

impl Default for RaftDataMetrics {
    fn default() -> (r: Self)
        ensures
            r@ == (DataMetricsView {
                local_committed: None,
                cluster_committed: None,
                last_log: None,
                last_applied: None,
                snapshot: None,
                purged: None,
                last_quorum_acked: None,
                replication: None,
                heartbeat: None,
            }),
    {
        RaftDataMetrics {
            local_committed: None,
            cluster_committed: None,
            last_log: None,
            last_applied: None,
            snapshot: None,
            purged: None,
            last_quorum_acked: None,
            replication: None,
            heartbeat: None,
        }
    }
}

impl RaftDataMetrics {
    /// Whether two metrics are the same.
    pub fn same(&self, other: &RaftDataMetrics) -> (r: bool)
        ensures
            r == (self@ == other@),
    {
        let replication = match (&self.replication, &other.replication) {
            (None, None) => true,
            (Some(a), Some(b)) => sets::log_map_same(a, b),
            _ => false,
        };
        let heartbeat = match (&self.heartbeat, &other.heartbeat) {
            (None, None) => true,
            (Some(a), Some(b)) => sets::instant_map_same(a, b),
            _ => false,
        };
        let acked = match (&self.last_quorum_acked, &other.last_quorum_acked) {
            (None, None) => true,
            (Some(a), Some(b)) => a.inner == b.inner,
            _ => false,
        };
        self.local_committed == other.local_committed && self.cluster_committed
            == other.cluster_committed && self.last_log == other.last_log && self.last_applied
            == other.last_applied && self.snapshot == other.snapshot && self.purged == other.purged
            && acked && replication && heartbeat
    }

    /// The metrics in a line.
    pub open spec fn text(self, t: MetricsTexts) -> Seq<char> {
        "DataMetrics{"@ + "last_log:"@ + log_id::opt_log_id_spec(self.last_log)
            + ", local_committed:"@ + log_id::opt_log_id_spec(self.local_committed)
            + ", cluster_committed:"@ + log_id::opt_log_id_spec(self.cluster_committed)
            + ", last_applied:"@ + log_id::opt_log_id_spec(self.last_applied) + ", snapshot:"@
            + log_id::opt_log_id_spec(self.snapshot) + ", purged:"@ + log_id::opt_log_id_spec(
            self.purged,
        ) + (if self.last_quorum_acked is Some {
            ", quorum_acked_time:("@ + t.quorum_acked_time@ + ", "@ + t.quorum_acked_ago@
                + " ago)"@
        } else {
            ", quorum_acked_time:None"@
        }) + ", replication:{"@ + given(self.replication is Some, t.replication@)
            + "}, heartbeat:{"@ + given(self.heartbeat is Some, t.heartbeat@) + "}"@ + "}"@
    }

    /// The metrics in a line, with the texts of the parts that are not texts of the metrics
    /// themselves.
    pub fn to_string_with(&self, t: &MetricsTexts) -> (r: String)
        ensures
            r@ == self.text(*t),
    {
        let last_log = log_id::opt_log_id_text(&self.last_log);
        let local = log_id::opt_log_id_text(&self.local_committed);
        let cluster = log_id::opt_log_id_text(&self.cluster_committed);
        let applied = log_id::opt_log_id_text(&self.last_applied);
        let snapshot = log_id::opt_log_id_text(&self.snapshot);
        let purged = log_id::opt_log_id_text(&self.purged);
        let acked = match &self.last_quorum_acked {
            Some(_) => ", quorum_acked_time:(".to_owned().concat(t.quorum_acked_time).concat(
                ", ",
            ).concat(t.quorum_acked_ago).concat(" ago)"),
            None => ", quorum_acked_time:None".to_owned(),
        };
        let replication = match &self.replication {
            Some(_) => t.replication,
            None => "None",
        };
        let heartbeat = match &self.heartbeat {
            Some(_) => t.heartbeat,
            None => "None",
        };
        "DataMetrics{".to_owned().concat("last_log:").concat(last_log.as_str()).concat(
            ", local_committed:",
        ).concat(local.as_str()).concat(", cluster_committed:").concat(cluster.as_str()).concat(
            ", last_applied:",
        ).concat(applied.as_str()).concat(", snapshot:").concat(snapshot.as_str()).concat(
            ", purged:",
        ).concat(purged.as_str()).concat(acked.as_str()).concat(", replication:{").concat(
            replication,
        ).concat("}, heartbeat:{").concat(heartbeat).concat("}").concat("}")
    }
}

/// The metrics of a node as a server.
pub struct RaftServerMetrics<C: RaftTypeConfig> {
    pub id: u64,
    pub vote: Vote,
    pub state: ServerState,
    pub current_leader: Option<u64>,
    pub membership_config: Arc<StoredMembership<C::Node>>,
    pub committed_membership_config: Arc<StoredMembership<C::Node>>,
}

/// The metrics of a node as a server, as mathematics.
#[verifier::ext_equal]
pub struct ServerMetricsView<N> {
    pub id: u64,
    pub vote: Vote,
    pub state: ServerState,
    pub current_leader: Option<u64>,
    pub membership_config: StoredMembershipView<N>,
    pub committed_membership_config: StoredMembershipView<N>,
}

impl<C: RaftTypeConfig> View for RaftServerMetrics<C> {
    type V = ServerMetricsView<C::Node>;

    open spec fn view(&self) -> ServerMetricsView<C::Node> {
        ServerMetricsView {
            id: self.id,
            vote: self.vote,
            state: self.state,
            current_leader: self.current_leader,
            membership_config: self.membership_config@,
            committed_membership_config: self.committed_membership_config@,
        }
    }
}

impl<C: RaftTypeConfig> RaftServerMetrics<C> {
    /// The metrics of a node that has not started.
    pub fn new_initial(id: u64) -> (r: Self)
        ensures
            r@ == (ServerMetricsView {
                id,
                vote: Vote::initial(id),
                state: ServerState::Follower,
                current_leader: None,
                membership_config: StoredMembership::<C::Node>::empty_view(),
                committed_membership_config: StoredMembership::<C::Node>::empty_view(),
            }),
    {
        RaftServerMetrics {
            id,
            vote: Vote::new_with_default_term(id),
            state: ServerState::Follower,
            current_leader: None,
            membership_config: Arc::new(StoredMembership::empty()),
            committed_membership_config: Arc::new(StoredMembership::empty()),
        }
    }

    /// Whether two metrics are the same.
    pub fn same(&self, other: &RaftServerMetrics<C>) -> (r: bool)
        ensures
            r == (self@ == other@),
    {
        self.id == other.id && self.vote == other.vote && self.state == other.state
            && self.current_leader == other.current_leader && self.membership_config.same(
            &other.membership_config,
        ) && self.committed_membership_config.same(&other.committed_membership_config)
    }

    /// The metrics in a line.
    pub open spec fn text(self, t: MetricsTexts) -> Seq<char> {
        "ServerMetrics{"@ + "id:"@ + text::decimal(self.id as nat) + ", "@ + self.state.text()
            + ", vote:"@ + self.vote.text() + ", leader:"@ + opt_number_spec(self.current_leader)
            + ", membership:"@ + t.membership@ + ", committed_membership:"@
            + t.committed_membership@ + "}"@
    }

    /// The metrics in a line, with the texts of the memberships.
    pub fn to_string_with(&self, t: &MetricsTexts) -> (r: String)
        ensures
            r@ == self.text(*t),
    {
        let id = text::u64_text(self.id);
        let vote = self.vote.to_string();
        let leader = opt_number_text(&self.current_leader);
        "ServerMetrics{".to_owned().concat("id:").concat(id.as_str()).concat(", ").concat(
            self.state.as_str(),
        ).concat(", vote:").concat(vote.as_str()).concat(", leader:").concat(
            leader.as_str(),
        ).concat(", membership:").concat(t.membership).concat(", committed_membership:").concat(
            t.committed_membership,
        ).concat("}")
    }
}

/// Metrics of the data are the same exactly if each of their parts is.
pub proof fn same_calls<C: RaftTypeConfig>(
    a: RaftDataMetrics,
    b: RaftDataMetrics,
    c: RaftServerMetrics<C>,
    d: RaftServerMetrics<C>,
    r: bool,
)
    ensures
        call_ensures(RaftDataMetrics::same, (&a, &b), r) ==> (r <==> {
            &&& a.local_committed == b.local_committed
            &&& a.cluster_committed == b.cluster_committed
            &&& a.last_log == b.last_log
            &&& a.last_applied == b.last_applied
            &&& a.snapshot == b.snapshot
            &&& a.purged == b.purged
            &&& a.last_quorum_acked == b.last_quorum_acked
            &&& a.replication is Some <==> b.replication is Some
            &&& a.replication is Some ==> a.replication->0@ == b.replication->0@
            &&& a.heartbeat is Some <==> b.heartbeat is Some
            &&& a.heartbeat is Some ==> a.heartbeat->0@ == b.heartbeat->0@
        }),
        call_ensures(RaftServerMetrics::<C>::same, (&c, &d), r) ==> (r <==> {
            &&& c.id == d.id
            &&& c.vote == d.vote
            &&& c.state == d.state
            &&& c.current_leader == d.current_leader
            &&& c.membership_config@ == d.membership_config@
            &&& c.committed_membership_config@ == d.committed_membership_config@
        }),
{
}

/// A node that stopped shows why, and keeps what it showed else; one that has not started shows its id
/// and nothing else.
pub proof fn lifetime_calls<C: RaftTypeConfig>(
    m: RaftMetrics<C>,
    err: Fatal<C>,
    stopped: RaftMetrics<C>,
    id: u64,
    new: RaftMetrics<C>,
)
    ensures
        call_ensures(RaftMetrics::<C>::into_shutdown, (m, err), stopped) ==> {
            &&& stopped.state is Shutdown
            &&& stopped.running_state == Err::<(), Fatal<C>>(err)
            &&& stopped.id == m.id && stopped.current_term == m.current_term && stopped.vote == m.vote
            &&& stopped.last_log_index == m.last_log_index && stopped.last_applied == m.last_applied
            &&& stopped.local_committed == m.local_committed && stopped.cluster_committed
                == m.cluster_committed
            &&& stopped.snapshot == m.snapshot && stopped.purged == m.purged
            &&& stopped.current_leader == m.current_leader && stopped.last_quorum_acked
                == m.last_quorum_acked
            &&& stopped.membership_config == m.membership_config
                && stopped.committed_membership_config == m.committed_membership_config
            &&& stopped.heartbeat == m.heartbeat && stopped.replication == m.replication
        },
        call_ensures(RaftMetrics::<C>::new_initial, (id,), new) ==> {
            &&& new.id == id && new.running_state is Ok && new.state is Follower
            &&& new.current_term == 0 && new.vote.leader_id.term == 0 && new.vote.leader_id.node_id
                == id && !new.vote.committed
            &&& new.last_log_index is None && new.local_committed is None
                && new.cluster_committed is None && new.last_applied is None
            &&& new.snapshot is None && new.purged is None && new.current_leader is None
                && new.last_quorum_acked is None
            &&& new.heartbeat is None && new.replication is None
        },
{
}

/// Optional numbers can be told apart by their texts.
pub proof fn optional_numbers_are_told_apart(a: Option<u64>, b: Option<u64>)
    ensures
        opt_number_spec(a) == opt_number_spec(b) ==> a == b,
{
    reveal_strlit("None");
    assert('0' as int == 48 && '9' as int == 57 && 'N' as int == 78);
    assert("None"@[0] == 'N');
    if let Some(x) = a {
        text::decimal_stands_for_its_number(x as nat, 0);
    }
    if let Some(y) = b {
        text::decimal_stands_for_its_number(y as nat, 0);
    }
    if a is Some && b is Some && opt_number_spec(a) == opt_number_spec(b) {
        text::decimal_is_injective(a->0 as nat, b->0 as nat);
    }
}

/// The parts of the text.
spec fn data_parts(a: RaftDataMetrics, t: MetricsTexts) -> Seq<Seq<char>> {
    seq![
        "DataMetrics{"@,
        "last_log:"@,
        log_id::opt_log_id_spec(a.last_log),
        ", local_committed:"@,
        log_id::opt_log_id_spec(a.local_committed),
        ", cluster_committed:"@,
        log_id::opt_log_id_spec(a.cluster_committed),
        ", last_applied:"@,
        log_id::opt_log_id_spec(a.last_applied),
        ", snapshot:"@,
        log_id::opt_log_id_spec(a.snapshot),
        ", purged:"@,
        log_id::opt_log_id_spec(a.purged),
        (if a.last_quorum_acked is Some {
            ", quorum_acked_time:("@ + t.quorum_acked_time@ + ", "@ + t.quorum_acked_ago@
                + " ago)"@
        } else {
            ", quorum_acked_time:None"@
        }),
        ", replication:{"@,
        given(a.replication is Some, t.replication@),
        "}, heartbeat:{"@,
        given(a.heartbeat is Some, t.heartbeat@),
        "}"@,
        "}"@,
    ]
}

proof fn lemma_data_parts(a: RaftDataMetrics, t: MetricsTexts)
    ensures
        a.text(t) == seqs::strung(data_parts(a, t), 20),
{
    reveal_with_fuel(seqs::strung, 21);
}

/// Each part of the metrics of the data shows in their text: another value there is another text.
pub proof fn data_metrics_show_their_parts(
    a: RaftDataMetrics,
    b: RaftDataMetrics,
    t: MetricsTexts,
)
    requires
        a.text(t) == b.text(t),
    ensures
        b == (RaftDataMetrics { last_log: b.last_log, ..a }) ==> a.last_log == b.last_log,
        b == (RaftDataMetrics { local_committed: b.local_committed, ..a }) ==> a.local_committed == b.local_committed,
        b == (RaftDataMetrics { cluster_committed: b.cluster_committed, ..a }) ==> a.cluster_committed == b.cluster_committed,
        b == (RaftDataMetrics { last_applied: b.last_applied, ..a }) ==> a.last_applied == b.last_applied,
        b == (RaftDataMetrics { snapshot: b.snapshot, ..a }) ==> a.snapshot == b.snapshot,
        b == (RaftDataMetrics { purged: b.purged, ..a }) ==> a.purged == b.purged,
{
    lemma_data_parts(a, t);
    lemma_data_parts(b, t);
    let x = data_parts(a, t);
    let y = data_parts(b, t);
    if b == (RaftDataMetrics { last_log: b.last_log, ..a }) {
        seqs::a_part_can_be_told(x, y, 2, 20);
        log_id::optional_log_ids_are_told_apart(a.last_log, b.last_log);
    }
    if b == (RaftDataMetrics { local_committed: b.local_committed, ..a }) {
        seqs::a_part_can_be_told(x, y, 4, 20);
        log_id::optional_log_ids_are_told_apart(a.local_committed, b.local_committed);
    }
    if b == (RaftDataMetrics { cluster_committed: b.cluster_committed, ..a }) {
        seqs::a_part_can_be_told(x, y, 6, 20);
        log_id::optional_log_ids_are_told_apart(a.cluster_committed, b.cluster_committed);
    }
    if b == (RaftDataMetrics { last_applied: b.last_applied, ..a }) {
        seqs::a_part_can_be_told(x, y, 8, 20);
        log_id::optional_log_ids_are_told_apart(a.last_applied, b.last_applied);
    }
    if b == (RaftDataMetrics { snapshot: b.snapshot, ..a }) {
        seqs::a_part_can_be_told(x, y, 10, 20);
        log_id::optional_log_ids_are_told_apart(a.snapshot, b.snapshot);
    }
    if b == (RaftDataMetrics { purged: b.purged, ..a }) {
        seqs::a_part_can_be_told(x, y, 12, 20);
        log_id::optional_log_ids_are_told_apart(a.purged, b.purged);
    }
}

/// The parts of the text.
spec fn server_parts<C: RaftTypeConfig>(a: RaftServerMetrics<C>, t: MetricsTexts) -> Seq<Seq<char>> {
    seq![
        "ServerMetrics{"@,
        "id:"@,
        text::decimal(a.id as nat),
        ", "@,
        a.state.text(),
        ", vote:"@,
        a.vote.text(),
        ", leader:"@,
        opt_number_spec(a.current_leader),
        ", membership:"@,
        t.membership@,
        ", committed_membership:"@,
        t.committed_membership@,
        "}"@,
    ]
}

proof fn lemma_server_parts<C: RaftTypeConfig>(a: RaftServerMetrics<C>, t: MetricsTexts)
    ensures
        a.text(t) == seqs::strung(server_parts(a, t), 14),
{
    reveal_with_fuel(seqs::strung, 15);
}

/// Each part of the metrics of a server shows in their text: another value there is another text.
pub proof fn server_metrics_show_their_parts<C: RaftTypeConfig>(
    a: RaftServerMetrics<C>,
    b: RaftServerMetrics<C>,
    t: MetricsTexts,
)
    requires
        a.text(t) == b.text(t),
    ensures
        b == (RaftServerMetrics { id: b.id, ..a }) ==> a.id == b.id,
        b == (RaftServerMetrics { vote: b.vote, ..a }) ==> a.vote == b.vote,
        b == (RaftServerMetrics { current_leader: b.current_leader, ..a }) ==> a.current_leader == b.current_leader,
{
    lemma_server_parts(a, t);
    lemma_server_parts(b, t);
    let x = server_parts(a, t);
    let y = server_parts(b, t);
    if b == (RaftServerMetrics { id: b.id, ..a }) {
        seqs::a_part_can_be_told(x, y, 2, 14);
        text::decimal_is_injective(a.id as nat, b.id as nat);
    }
    if b == (RaftServerMetrics { vote: b.vote, ..a }) {
        seqs::a_part_can_be_told(x, y, 6, 14);
        vote_texts_tell_votes_apart(a.vote, b.vote);
    }
    if b == (RaftServerMetrics { current_leader: b.current_leader, ..a }) {
        seqs::a_part_can_be_told(x, y, 8, 14);
        optional_numbers_are_told_apart(a.current_leader, b.current_leader);
    }
}

/// The parts of the text.
spec fn node_parts<C: RaftTypeConfig>(a: RaftMetrics<C>, t: MetricsTexts) -> Seq<Seq<char>> {
    seq![
        "Metrics{"@,
        "id:"@,
        text::decimal(a.id as nat),
        ", "@,
        a.state.text(),
        ", term:"@,
        text::decimal(a.current_term as nat),
        ", vote:"@,
        a.vote.text(),
        ", last_log:"@,
        opt_number_spec(a.last_log_index),
        ", local_committed:"@,
        log_id::opt_log_id_spec(a.local_committed),
        ", cluster_committed:"@,
        log_id::opt_log_id_spec(a.cluster_committed),
        ", last_applied:"@,
        log_id::opt_log_id_spec(a.last_applied),
        ", leader:"@,
        opt_number_spec(a.current_leader),
        (if a.last_quorum_acked is Some {
            "(quorum_acked_time:"@ + t.quorum_acked_time@ + ", "@ + t.quorum_acked_ago@ + " ago)"@
        } else {
            "(quorum_acked_time:None)"@
        }),
        ", membership:"@,
        t.membership@,
        ", committed_membership:"@,
        t.committed_membership@,
        ", snapshot:"@,
        log_id::opt_log_id_spec(a.snapshot),
        ", purged:"@,
        log_id::opt_log_id_spec(a.purged),
        ", replication:{"@,
        given(a.replication is Some, t.replication@),
        "}, heartbeat:{"@,
        given(a.heartbeat is Some, t.heartbeat@),
        "}"@,
        "}"@,
    ]
}

proof fn lemma_node_parts<C: RaftTypeConfig>(a: RaftMetrics<C>, t: MetricsTexts)
    ensures
        a.text(t) == seqs::strung(node_parts(a, t), 34),
{
    reveal_with_fuel(seqs::strung, 35);
}

/// Each part of the metrics of a node shows in their text: another value there is another text.
#[verifier::rlimit(80)]
pub proof fn metrics_show_their_parts<C: RaftTypeConfig>(
    a: RaftMetrics<C>,
    b: RaftMetrics<C>,
    t: MetricsTexts,
)
    requires
        a.text(t) == b.text(t),
    ensures
        b == (RaftMetrics { id: b.id, ..a }) ==> a.id == b.id,
        b == (RaftMetrics { current_term: b.current_term, ..a }) ==> a.current_term == b.current_term,
        b == (RaftMetrics { vote: b.vote, ..a }) ==> a.vote == b.vote,
        b == (RaftMetrics { last_log_index: b.last_log_index, ..a }) ==> a.last_log_index == b.last_log_index,
        b == (RaftMetrics { local_committed: b.local_committed, ..a }) ==> a.local_committed == b.local_committed,
        b == (RaftMetrics { cluster_committed: b.cluster_committed, ..a }) ==> a.cluster_committed == b.cluster_committed,
        b == (RaftMetrics { last_applied: b.last_applied, ..a }) ==> a.last_applied == b.last_applied,
        b == (RaftMetrics { current_leader: b.current_leader, ..a }) ==> a.current_leader == b.current_leader,
        b == (RaftMetrics { snapshot: b.snapshot, ..a }) ==> a.snapshot == b.snapshot,
        b == (RaftMetrics { purged: b.purged, ..a }) ==> a.purged == b.purged,
{
    lemma_node_parts(a, t);
    lemma_node_parts(b, t);
    let x = node_parts(a, t);
    let y = node_parts(b, t);
    if b == (RaftMetrics { id: b.id, ..a }) {
        seqs::a_part_can_be_told(x, y, 2, 34);
        text::decimal_is_injective(a.id as nat, b.id as nat);
    }
    if b == (RaftMetrics { current_term: b.current_term, ..a }) {
        seqs::a_part_can_be_told(x, y, 6, 34);
        text::decimal_is_injective(a.current_term as nat, b.current_term as nat);
    }
    if b == (RaftMetrics { vote: b.vote, ..a }) {
        seqs::a_part_can_be_told(x, y, 8, 34);
        vote_texts_tell_votes_apart(a.vote, b.vote);
    }
    if b == (RaftMetrics { last_log_index: b.last_log_index, ..a }) {
        seqs::a_part_can_be_told(x, y, 10, 34);
        optional_numbers_are_told_apart(a.last_log_index, b.last_log_index);
    }
    if b == (RaftMetrics { local_committed: b.local_committed, ..a }) {
        seqs::a_part_can_be_told(x, y, 12, 34);
        log_id::optional_log_ids_are_told_apart(a.local_committed, b.local_committed);
    }
    if b == (RaftMetrics { cluster_committed: b.cluster_committed, ..a }) {
        seqs::a_part_can_be_told(x, y, 14, 34);
        log_id::optional_log_ids_are_told_apart(a.cluster_committed, b.cluster_committed);
    }
    if b == (RaftMetrics { last_applied: b.last_applied, ..a }) {
        seqs::a_part_can_be_told(x, y, 16, 34);
        log_id::optional_log_ids_are_told_apart(a.last_applied, b.last_applied);
    }
    if b == (RaftMetrics { current_leader: b.current_leader, ..a }) {
        seqs::a_part_can_be_told(x, y, 18, 34);
        optional_numbers_are_told_apart(a.current_leader, b.current_leader);
    }
    if b == (RaftMetrics { snapshot: b.snapshot, ..a }) {
        seqs::a_part_can_be_told(x, y, 25, 34);
        log_id::optional_log_ids_are_told_apart(a.snapshot, b.snapshot);
    }
    if b == (RaftMetrics { purged: b.purged, ..a }) {
        seqs::a_part_can_be_told(x, y, 27, 34);
        log_id::optional_log_ids_are_told_apart(a.purged, b.purged);
    }
}

} // verus!
