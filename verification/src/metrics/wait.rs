//! Waiting for the metrics of a node to meet a condition.

use std::collections::BTreeSet;
use vstd::prelude::*;
use vstd::string::*;
use crate::log_id::LogId;
use crate::log_id;
use crate::metrics::RaftMetrics;
use crate::raft_core::state::ServerState;
use crate::sets;
use crate::text;
use crate::time::{Duration, Instant};
use crate::type_config::RaftTypeConfig;
use crate::vote::Vote;

verus! {

/// The text of a duration, by its whole seconds and the nanoseconds beyond them.
pub uninterp spec fn duration_debug(secs: u64, subsec_nanos: u32) -> Seq<char>;

/// The `Debug` text of a `std::time::Duration`: its largest unit that is not zero, with a decimal
/// fraction.
#[verifier::external_body]
fn duration_text(secs: u64, subsec_nanos: u32) -> (r: String)
    requires
        subsec_nanos < 1_000_000_000,
    ensures
        r@ == duration_debug(secs, subsec_nanos),
{
    format!("{:?}", std::time::Duration::new(secs, subsec_nanos))
}

impl Duration {
    /// Whether the whole seconds fit into 64 bits.
    pub open spec fn fits(self) -> bool {
        self.nanos / 1_000_000_000 <= u64::MAX
    }

    /// The text of the span.
    pub open spec fn text(self) -> Seq<char> {
        duration_debug(
            (self.nanos / 1_000_000_000) as u64,
            (self.nanos % 1_000_000_000) as u32,
        )
    }

    /// The text of the span, such as `500ms`.
    pub fn to_string(&self) -> (r: String)
        requires
            self.fits(),
        ensures
            r@ == self.text(),
    {
        duration_text((self.nanos / 1_000_000_000) as u64, (self.nanos % 1_000_000_000) as u32)
    }
}

/// Why a wait ended without its condition.
#[derive(Debug, PartialEq, Eq)]
pub enum WaitError {
    /// The condition was not met in time.
    Timeout(Duration, String),
    /// The node is shutting down.
    ShuttingDown,
}

impl WaitError {
    /// `timeout after <time> when <message>` or `raft is shutting down`.
    pub open spec fn text(self) -> Seq<char> {
        match self {
            WaitError::Timeout(d, msg) => "timeout after "@ + d.text() + " when "@ + msg@,
            WaitError::ShuttingDown => "raft is shutting down"@,
        }
    }

    /// `timeout after <time> when <message>` or `raft is shutting down`.
    pub fn to_string(&self) -> (r: String)
        requires
            self matches WaitError::Timeout(d, _) ==> d.fits(),
        ensures
            r@ == self.text(),
    {
        match self {
            WaitError::Timeout(d, msg) => {
                let t = d.to_string();
                "timeout after ".to_owned().concat(t.as_str()).concat(" when ").concat(
                    msg.as_str(),
                )
            },
            WaitError::ShuttingDown => "raft is shutting down".to_owned(),
        }
    }
}

/// A single metric and its value.
#[derive(Clone, Copy, Debug, PartialEq, Eq, Structural)]
pub enum Metric {
    Term(u64),
    Vote(Vote),
    LastLogIndex(Option<u64>),
    AppliedIndex(Option<u64>),
    Snapshot(Option<LogId>),
    Purged(Option<LogId>),
}

/// The order of optional indexes: `None` comes first.
pub open spec fn index_at_most(a: Option<u64>, b: Option<u64>) -> bool {
    match (a, b) {
        (None, _) => true,
        (Some(_), None) => false,
        (Some(x), Some(y)) => x <= y,
    }
}

/// Whether `a` is less than or equal to `b`, where `None` comes first.
pub fn index_is_at_most(a: &Option<u64>, b: &Option<u64>) -> (r: bool)
    ensures
        r == index_at_most(*a, *b),
{
    match (a, b) {
        (None, _) => true,
        (Some(_), None) => false,
        (Some(x), Some(y)) => *x <= *y,
    }
}

/// What is waited for.
pub enum WaitFor {
    /// A metric is greater than or equal to a value.
    Ge(Metric),
    /// A metric is equal to a value.
    Eq(Metric),
    /// The leader is the given node.
    CurrentLeader(u64),
    /// The node does what is given.
    State(ServerState),
    /// The node leads and a quorum has acknowledged it, not before the given time if one is given.
    LeaderWithQuorumAcked(Option<Instant>),
    /// The voters are the given nodes.
    VoterIds(BTreeSet<u64>),
    /// The last committed index is the given one.
    CommittedIndex(Option<u64>),
    /// The last committed index is at least the given one.
    CommittedIndexAtLeast(Option<u64>),
}

impl Metric {
    /// Whether the metric has this value.
    pub open spec fn equals<C: RaftTypeConfig>(self, m: RaftMetrics<C>) -> bool {
        match self {
            Metric::Term(v) => m.current_term == v,
            Metric::Vote(v) => m.vote == v,
            Metric::LastLogIndex(v) => m.last_log_index == v,
            Metric::AppliedIndex(v) => log_id::index_of(m.last_applied) == v,
            Metric::Snapshot(v) => m.snapshot == v,
            Metric::Purged(v) => m.purged == v,
        }
    }

    /// Whether the metric is greater than or equal to this value.
    pub open spec fn reached<C: RaftTypeConfig>(self, m: RaftMetrics<C>) -> bool {
        match self {
            Metric::Term(v) => m.current_term >= v,
            Metric::Vote(v) => m.vote == v || m.vote.exceeds(v),
            Metric::LastLogIndex(v) => index_at_most(v, m.last_log_index),
            Metric::AppliedIndex(v) => index_at_most(v, log_id::index_of(m.last_applied)),
            Metric::Snapshot(v) => log_id::opt_at_most(v, m.snapshot),
            Metric::Purged(v) => log_id::opt_at_most(v, m.purged),
        }
    }
}

impl WaitFor {
    /// Whether the condition is met.
    pub open spec fn met<C: RaftTypeConfig>(self, m: RaftMetrics<C>) -> bool {
        match self {
            WaitFor::Ge(metric) => metric.reached(m),
            WaitFor::Eq(metric) => metric.equals(m),
            WaitFor::CurrentLeader(id) => m.current_leader == Some(id),
            WaitFor::State(s) => m.state == s,
            WaitFor::LeaderWithQuorumAcked(at_least) => {
                &&& m.state == ServerState::Leader
                &&& m.last_quorum_acked is Some
                &&& at_least matches Some(want) ==> m.last_quorum_acked->0.inner.nanos
                    >= want.nanos
            },
            WaitFor::VoterIds(ids) => m.membership_config.membership@.voters() == ids@,
            WaitFor::CommittedIndex(index) => log_id::index_of(m.local_committed) == index,
            WaitFor::CommittedIndexAtLeast(index) => index_at_most(
                index,
                log_id::index_of(m.local_committed),
            ),
        }
    }

    /// Whether the condition is met.
    pub fn is_met<C: RaftTypeConfig>(&self, m: &RaftMetrics<C>) -> (r: bool)
        ensures
            r == self.met(*m),
    {
        match self {
            WaitFor::Ge(metric) => match metric {
                Metric::Term(v) => m.current_term >= *v,
                Metric::Vote(v) => m.vote == *v || m.vote.is_greater_than(v),
                Metric::LastLogIndex(v) => index_is_at_most(v, &m.last_log_index),
                Metric::AppliedIndex(v) => index_is_at_most(v, &log_id::opt_index(&m.last_applied)),
                Metric::Snapshot(v) => log_id::opt_is_at_most(v, &m.snapshot),
                Metric::Purged(v) => log_id::opt_is_at_most(v, &m.purged),
            },
            WaitFor::Eq(metric) => match metric {
                Metric::Term(v) => m.current_term == *v,
                Metric::Vote(v) => m.vote == *v,
                Metric::LastLogIndex(v) => m.last_log_index == *v,
                Metric::AppliedIndex(v) => log_id::opt_index(&m.last_applied) == *v,
                Metric::Snapshot(v) => m.snapshot == *v,
                Metric::Purged(v) => m.purged == *v,
            },
            WaitFor::CurrentLeader(id) => m.current_leader == Some(*id),
            WaitFor::State(s) => m.state == *s,
            WaitFor::LeaderWithQuorumAcked(at_least) => {
                if m.state != ServerState::Leader {
                    return false;
                }
                match &m.last_quorum_acked {
                    None => false,
                    Some(acked) => match at_least {
                        None => true,
                        Some(want) => acked.inner.nanos >= want.nanos,
                    },
                }
            },
            WaitFor::VoterIds(ids) => {
                let voters = m.membership_config.membership.voter_ids();
                let got = sets::set_of(&voters);
                sets::set_equal(&got, ids)
            },
            WaitFor::CommittedIndex(index) => log_id::opt_index(&m.local_committed) == *index,
            WaitFor::CommittedIndexAtLeast(index) => index_is_at_most(
                index,
                &log_id::opt_index(&m.local_committed),
            ),
        }
    }
}

/// What a wait does next.
#[derive(Clone, Copy, Debug, PartialEq, Eq, Structural)]
pub enum WaitStep {
    /// The condition is met.
    Done,
    /// The time is up.
    TimedOut,
    /// Wait for the metrics to change, but not longer than this.
    Sleep(Duration),
}

/// What ended the wait for the metrics to change.
#[derive(Clone, Copy, Debug, PartialEq, Eq, Structural)]
pub enum WaitEvent {
    /// The time is up.
    Elapsed,
    /// The metrics have changed.
    Changed,
    /// The node is gone.
    Closed,
}

/// `<index>` as `Some(<index>)` or `None`.
pub open spec fn opt_index_debug(n: Option<u64>) -> Seq<char> {
    match n {
        Some(x) => "Some("@ + text::decimal(x as nat) + ")"@,
        None => "None"@,
    }
}

fn opt_index_debug_text(n: &Option<u64>) -> (r: String)
    ensures
        r@ == opt_index_debug(*n),
{
    match n {
        Some(x) => "Some(".to_owned().concat(text::u64_text(*x).as_str()).concat(")"),
        None => "None".to_owned(),
    }
}

/// `{<a>, <b>}`.
pub open spec fn ids_text(ids: Seq<u64>) -> Seq<char> {
    "{"@ + text::join_spec(ids.map_values(|id: u64| text::decimal(id as nat)), ", "@) + "}"@
}

fn ids_to_text(ids: &Vec<u64>) -> (r: String)
    ensures
        r@ == ids_text(ids@),
{
    let ghost all = ids@.map_values(|id: u64| text::decimal(id as nat));
    let mut texts: Vec<String> = Vec::new();
    let mut i: usize = 0;
    while i < ids.len()
        invariant
            i <= ids.len(),
            all == ids@.map_values(|id: u64| text::decimal(id as nat)),
            texts@.len() == i,
            forall|j: int| 0 <= j < i ==> texts@[j]@ == all[j],
        decreases ids.len() - i,
    {
        texts.push(text::u64_text(ids[i]));
        i = i + 1;
    }
    assert(text::views(texts@) =~= all);
    let t = text::join(&texts, ", ");
    "{".to_owned().concat(t.as_str()).concat("}")
}

/// Waits for the metrics of a node, for at most the given time.
pub struct Wait {
    pub timeout: Duration,
}

impl Wait {
    /// What a wait does that found the given metrics at `now`.
    pub fn metrics<C: RaftTypeConfig>(
        &self,
        cond: &WaitFor,
        latest: &RaftMetrics<C>,
        now: Instant,
        timeout_at: Instant,
    ) -> (r: WaitStep)
        ensures
            r == (if cond.met(*latest) {
                WaitStep::Done
            } else if now.nanos >= timeout_at.nanos {
                WaitStep::TimedOut
            } else {
                WaitStep::Sleep(Duration { nanos: (timeout_at.nanos - now.nanos) as u128 })
            }),
    {
        if cond.is_met(latest) {
            return WaitStep::Done;
        }
        if now.nanos >= timeout_at.nanos {
            return WaitStep::TimedOut;
        }
        WaitStep::Sleep(Duration { nanos: timeout_at.nanos - now.nanos })
    }

    /// When the wait that begins at `now` ends.
    pub fn timeout_at(&self, now: Instant) -> (r: Instant)
        requires
            now.nanos + self.timeout.nanos <= u128::MAX,
        ensures
            r.nanos == now.nanos + self.timeout.nanos,
    {
        now.plus(self.timeout)
    }

    /// Whether the wait goes on after an event, or its error; `latest` is the text of the latest
    /// metrics.
    pub fn on_event(&self, event: WaitEvent, msg: &str, latest: &str) -> (r: Result<(), WaitError>)
        ensures
            match event {
                WaitEvent::Changed => r is Ok,
                WaitEvent::Closed => r == Err::<(), WaitError>(WaitError::ShuttingDown),
                WaitEvent::Elapsed => {
                    &&& r matches Err(WaitError::Timeout(d, m))
                    &&& d == self.timeout
                    &&& m@ == msg@ + " latest: "@ + latest@
                },
            },
    {
        match event {
            WaitEvent::Changed => Ok(()),
            WaitEvent::Closed => Err(WaitError::ShuttingDown),
            WaitEvent::Elapsed => Err(self.timed_out(msg, latest)),
        }
    }

    /// The error of a wait whose time is up; `latest` is the text of the latest metrics.
    pub fn timed_out(&self, msg: &str, latest: &str) -> (r: WaitError)
        ensures
            r matches WaitError::Timeout(d, m) && d == self.timeout && m@ == msg@ + " latest: "@
                + latest@,
    {
        WaitError::Timeout(self.timeout, msg.to_owned().concat(" latest: ").concat(latest))
    }

    /// Wait for the vote to become `want`.
    pub fn vote(&self, want: Vote) -> (r: WaitFor)
        ensures
            r == WaitFor::Eq(Metric::Vote(want)),
    {
        self.eq(Metric::Vote(want))
    }

    /// Wait for the leader to become `leader_id`.
    pub fn current_leader(&self, leader_id: u64, msg: &str) -> (r: (WaitFor, String))
        ensures
            r.0 == WaitFor::CurrentLeader(leader_id),
            r.1@ == msg@ + " .current_leader == "@ + text::decimal(leader_id as nat),
    {
        let id = text::u64_text(leader_id);
        (
            WaitFor::CurrentLeader(leader_id),
            msg.to_owned().concat(" .current_leader == ").concat(id.as_str()),
        )
    }

    /// Wait for the last log index to become `index`.
    pub fn log_index(&self, index: Option<u64>) -> (r: WaitFor)
        ensures
            r == WaitFor::Eq(Metric::LastLogIndex(index)),
    {
        self.eq(Metric::LastLogIndex(index))
    }

    /// Wait for the last log index to become at least `index`.
    pub fn log_index_at_least(&self, index: Option<u64>) -> (r: WaitFor)
        ensures
            r == WaitFor::Ge(Metric::LastLogIndex(index)),
    {
        self.ge(Metric::LastLogIndex(index))
    }

    /// Wait for the last applied index to become `index`.
    pub fn applied_index(&self, index: Option<u64>) -> (r: WaitFor)
        ensures
            r == WaitFor::Eq(Metric::AppliedIndex(index)),
    {
        self.eq(Metric::AppliedIndex(index))
    }

    /// Wait for the last applied index to become at least `index`.
    pub fn applied_index_at_least(&self, index: Option<u64>) -> (r: WaitFor)
        ensures
            r == WaitFor::Ge(Metric::AppliedIndex(index)),
    {
        self.ge(Metric::AppliedIndex(index))
    }

    /// Wait for the node to do what is given.
    pub fn state(&self, want_state: ServerState, msg: &str) -> (r: (WaitFor, String))
        ensures
            r.0 == WaitFor::State(want_state),
            r.1@ == msg@ + " .state == "@ + want_state.text(),
    {
        (
            WaitFor::State(want_state),
            msg.to_owned().concat(" .state == ").concat(want_state.as_str()),
        )
    }

    /// Wait until the node leads and a quorum has acknowledged it, not before the given time if one
    /// is given; `time_text` is the text of that time.
    pub fn leader_with_quorum_acked(
        &self,
        at_least: Option<Instant>,
        msg: &str,
        time_text: &str,
    ) -> (r: (WaitFor, String))
        ensures
            r.0 == WaitFor::LeaderWithQuorumAcked(at_least),
            r.1@ == msg@ + " .leader_with_quorum_acked("@ + (match at_least {
                Some(_) => "Some("@ + time_text@ + ")"@,
                None => "None"@,
            }) + ")"@,
    {
        let t = match at_least {
            Some(_) => "Some(".to_owned().concat(time_text).concat(")"),
            None => "None".to_owned(),
        };
        (
            WaitFor::LeaderWithQuorumAcked(at_least),
            msg.to_owned().concat(" .leader_with_quorum_acked(").concat(t.as_str()).concat(")"),
        )
    }

    /// Wait for the voters to be the given nodes.
    pub fn voter_ids(&self, voter_ids: &Vec<u64>, msg: &str) -> (r: (WaitFor, String))
        ensures
            r.0 matches WaitFor::VoterIds(ids) && ids@ == voter_ids@.to_set(),
            exists|ids: Seq<u64>| #[trigger]
                sets::lists(ids, voter_ids@.to_set()) && r.1@ == msg@ + " .members == "@ + ids_text(
                    ids,
                ),
    {
        let want = sets::set_of(voter_ids);
        let ids = sets::set_members(&want);
        let t = ids_to_text(&ids);
        let text = msg.to_owned().concat(" .members == ").concat(t.as_str());
        assert(sets::lists(ids@, voter_ids@.to_set()));
        (WaitFor::VoterIds(want), text)
    }

    /// Wait for the snapshot to cover exactly the log up to `snapshot_last_log_id`.
    pub fn snapshot(&self, snapshot_last_log_id: LogId) -> (r: WaitFor)
        ensures
            r == WaitFor::Eq(Metric::Snapshot(Some(snapshot_last_log_id))),
    {
        self.eq(Metric::Snapshot(Some(snapshot_last_log_id)))
    }

    /// Wait for the last committed index to become `index`.
    pub fn committed_index(&self, index: Option<u64>, msg: &str) -> (r: (WaitFor, String))
        ensures
            r.0 == WaitFor::CommittedIndex(index),
            r.1@ == msg@ + " .committed_index == "@ + opt_index_debug(index),
    {
        let i = opt_index_debug_text(&index);
        (
            WaitFor::CommittedIndex(index),
            msg.to_owned().concat(" .committed_index == ").concat(i.as_str()),
        )
    }

    /// Wait for the last committed index to become at least `index`.
    pub fn committed_index_at_least(&self, index: Option<u64>, msg: &str) -> (r: (WaitFor, String))
        ensures
            r.0 == WaitFor::CommittedIndexAtLeast(index),
            r.1@ == msg@ + " .committed_index >= "@ + opt_index_debug(index),
    {
        let i = opt_index_debug_text(&index);
        (
            WaitFor::CommittedIndexAtLeast(index),
            msg.to_owned().concat(" .committed_index >= ").concat(i.as_str()),
        )
    }

    /// Wait for the last purged log entry to become `want`.
    pub fn purged(&self, want: Option<LogId>) -> (r: WaitFor)
        ensures
            r == WaitFor::Eq(Metric::Purged(want)),
    {
        self.eq(Metric::Purged(want))
    }

    /// Wait for a metric to become greater than or equal to a value.
    pub fn ge(&self, metric: Metric) -> (r: WaitFor)
        ensures
            r == WaitFor::Ge(metric),
    {
        WaitFor::Ge(metric)
    }

    /// Wait for a metric to become equal to a value.
    pub fn eq(&self, metric: Metric) -> (r: WaitFor)
        ensures
            r == WaitFor::Eq(metric),
    {
        WaitFor::Eq(metric)
    }
}

/// Where a metric has a value it has also reached it.
pub proof fn equal_is_reached<C: RaftTypeConfig>(metric: Metric, m: RaftMetrics<C>)
    ensures
        WaitFor::Eq(metric).met(m) ==> WaitFor::Ge(metric).met(m),
{
}

/// A wait for voters ends exactly when the voters are the given nodes: each of them is a voter, and
/// no other node is.
pub proof fn awaited_voters_are_all_voters<C: RaftTypeConfig>(ids: BTreeSet<u64>, m: RaftMetrics<C>)
    ensures
        ({
            let configs = m.membership_config.membership.configs@;
            WaitFor::VoterIds(ids).met(m) <==> forall|id: u64|
                #![trigger ids@.contains(id)]
                ids@.contains(id) <==> exists|i: int|
                    0 <= i < configs.len() && (#[trigger] configs[i])@.contains(id)
        }),
{
    let view = m.membership_config.membership@;
    let configs = m.membership_config.membership.configs@;
    assert(view.configs.len() == configs.len());
    assert forall|id: u64| #[trigger] view.voters().contains(id) <==> exists|i: int|
        0 <= i < configs.len() && (#[trigger] configs[i])@.contains(id) by {
        if view.voters().contains(id) {
            let i = choose|i: int|
                0 <= i < view.configs.len() && (#[trigger] view.configs[i]).contains(id);
            assert(configs[i]@.contains(id));
        }
        if exists|i: int| 0 <= i < configs.len() && (#[trigger] configs[i])@.contains(id) {
            let i = choose|i: int| 0 <= i < configs.len() && (#[trigger] configs[i])@.contains(id);
            assert(view.configs[i].contains(id));
        }
    }
    if forall|id: u64|
        #![trigger ids@.contains(id)]
        ids@.contains(id) <==> exists|i: int|
            0 <= i < configs.len() && (#[trigger] configs[i])@.contains(id) {
        assert(view.voters() =~= ids@);
    }
}

/// A wait for an equal metric ends exactly at the given value, and one for a greater or equal metric
/// at that value or beyond it; `None` comes before every index.
pub proof fn awaited_metric_is_compared<C: RaftTypeConfig>(
    m: RaftMetrics<C>,
    term: u64,
    index: Option<u64>,
    vote: Vote,
    id: Option<LogId>,
)
    ensures
        WaitFor::Eq(Metric::Term(term)).met(m) <==> m.current_term == term,
        WaitFor::Ge(Metric::Term(term)).met(m) <==> m.current_term > term || m.current_term == term,
        WaitFor::Eq(Metric::Vote(vote)).met(m) <==> m.vote == vote,
        WaitFor::Ge(Metric::Vote(vote)).met(m) <==> !vote.exceeds(m.vote),
        WaitFor::Eq(Metric::LastLogIndex(index)).met(m) <==> m.last_log_index == index,
        WaitFor::Ge(Metric::LastLogIndex(index)).met(m) <==> (index matches Some(want)
            ==> m.last_log_index matches Some(got) && got >= want),
        WaitFor::Eq(Metric::AppliedIndex(index)).met(m) <==> (match m.last_applied {
            Some(l) => index == Some(l.index),
            None => index is None,
        }),
        WaitFor::Ge(Metric::AppliedIndex(index)).met(m) <==> (index matches Some(want)
            ==> m.last_applied matches Some(l) && l.index >= want),
        WaitFor::Eq(Metric::Snapshot(id)).met(m) <==> m.snapshot == id,
        WaitFor::Ge(Metric::Snapshot(id)).met(m) <==> (id matches Some(want)
            ==> m.snapshot matches Some(got) && want.at_most(got)),
        WaitFor::Eq(Metric::Purged(id)).met(m) <==> m.purged == id,
        WaitFor::Ge(Metric::Purged(id)).met(m) <==> (id matches Some(want)
            ==> m.purged matches Some(got) && want.at_most(got)),
        WaitFor::CommittedIndex(index).met(m) <==> (match m.local_committed {
            Some(l) => index == Some(l.index),
            None => index is None,
        }),
        WaitFor::CommittedIndexAtLeast(index).met(m) <==> (index matches Some(want)
            ==> m.local_committed matches Some(l) && l.index >= want),
{
}

/// A wait that a greater or equal metric ended stays ended while the metric grows.
pub proof fn reached_index_stays_reached<C: RaftTypeConfig>(
    before: RaftMetrics<C>,
    after: RaftMetrics<C>,
    index: Option<u64>,
)
    requires
        before.last_log_index matches Some(x) ==> after.last_log_index matches Some(y) && x <= y,
        before.last_applied matches Some(x) ==> after.last_applied matches Some(y) && x.index
            <= y.index,
        before.local_committed matches Some(x) ==> after.local_committed matches Some(y) && x.index
            <= y.index,
    ensures
        WaitFor::Ge(Metric::LastLogIndex(index)).met(before) ==> WaitFor::Ge(
            Metric::LastLogIndex(index),
        ).met(after),
        WaitFor::Ge(Metric::AppliedIndex(index)).met(before) ==> WaitFor::Ge(
            Metric::AppliedIndex(index),
        ).met(after),
        WaitFor::CommittedIndexAtLeast(index).met(before) ==> WaitFor::CommittedIndexAtLeast(
            index,
        ).met(after),
{
}

/// A wait for a leader ends when the given node is known to lead, one for a role when this node has
/// it, and one for an acknowledged leader when this node leads and a quorum has acknowledged it, at
/// the given time or later where one is given.
pub proof fn awaited_leader_leads<C: RaftTypeConfig>(
    m: RaftMetrics<C>,
    id: u64,
    role: ServerState,
    at: Instant,
)
    ensures
        WaitFor::CurrentLeader(id).met(m) <==> (m.current_leader matches Some(l) && l == id),
        WaitFor::State(role).met(m) <==> m.state == role,
        WaitFor::LeaderWithQuorumAcked(None).met(m) <==> m.state == ServerState::Leader
            && m.last_quorum_acked is Some,
        WaitFor::LeaderWithQuorumAcked(Some(at)).met(m) <==> m.state == ServerState::Leader && (
        m.last_quorum_acked matches Some(acked) && at.nanos <= acked.inner.nanos),
{
}

/// A wait whose condition is met is done, even when its time is up.  Else it ends when its time is up,
/// and before that it sleeps for no longer than the time that is left.
pub proof fn wait_calls<C: RaftTypeConfig>(
    w: Wait,
    cond: WaitFor,
    m: RaftMetrics<C>,
    now: Instant,
    end: Instant,
    met: bool,
    step: WaitStep,
    until: Instant,
)
    ensures
        call_ensures(WaitFor::is_met::<C>, (&cond, &m), met) ==> met == cond.met(m),
        call_ensures(Wait::metrics::<C>, (&w, &cond, &m, now, end), step) ==> {
            &&& step is Done <==> cond.met(m)
            &&& step is TimedOut <==> !cond.met(m) && now.nanos >= end.nanos
            &&& step matches WaitStep::Sleep(d) ==> now.nanos + d.nanos == end.nanos && d.nanos > 0
        },
        call_ensures(Wait::timeout_at, (&w, now), until) ==> until.nanos == now.nanos
            + w.timeout.nanos,
{
}

/// A change lets a wait go on.  A node that is gone ends it as shutting down, and the time that is up
/// as a timeout that tells the allowed time, what was waited for and the latest metrics.
pub proof fn event_calls(
    w: Wait,
    event: WaitEvent,
    msg: &str,
    latest: &str,
    r: Result<(), WaitError>,
)
    requires
        call_ensures(Wait::on_event, (&w, event, msg, latest), r),
    ensures
        r is Ok <==> event == WaitEvent::Changed,
        event == WaitEvent::Closed ==> r == Err::<(), WaitError>(WaitError::ShuttingDown),
        event == WaitEvent::Elapsed ==> (r matches Err(WaitError::Timeout(d, m)) && d == w.timeout
            && m@ == msg@ + " latest: "@ + latest@),
{
}

/// What each wait waits for: an exact value, or a value that is at least as great where its name says
/// so.
pub proof fn wish_calls(
    w: Wait,
    vote: Vote,
    index: Option<u64>,
    id: LogId,
    upto: Option<LogId>,
    metric: Metric,
    r: WaitFor,
)
    ensures
        call_ensures(Wait::vote, (&w, vote), r) ==> r == WaitFor::Eq(Metric::Vote(vote)),
        call_ensures(Wait::log_index, (&w, index), r) ==> r == WaitFor::Eq(
            Metric::LastLogIndex(index),
        ),
        call_ensures(Wait::log_index_at_least, (&w, index), r) ==> r == WaitFor::Ge(
            Metric::LastLogIndex(index),
        ),
        call_ensures(Wait::applied_index, (&w, index), r) ==> r == WaitFor::Eq(
            Metric::AppliedIndex(index),
        ),
        call_ensures(Wait::applied_index_at_least, (&w, index), r) ==> r == WaitFor::Ge(
            Metric::AppliedIndex(index),
        ),
        call_ensures(Wait::snapshot, (&w, id), r) ==> r == WaitFor::Eq(Metric::Snapshot(Some(id))),
        call_ensures(Wait::purged, (&w, upto), r) ==> r == WaitFor::Eq(Metric::Purged(upto)),
        call_ensures(Wait::ge, (&w, metric), r) ==> r == WaitFor::Ge(metric),
        call_ensures(Wait::eq, (&w, metric), r) ==> r == WaitFor::Eq(metric),
{
}

} // verus!
