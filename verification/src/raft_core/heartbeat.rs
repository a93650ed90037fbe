//! Heartbeat workers.

use std::collections::BTreeMap;
use vstd::prelude::*;
use vstd::string::*;
use crate::entry::Entry;
use crate::log_id::LogId;
use crate::message::{AppendEntriesRequest, AppendEntriesResponse, StreamAppendError};
use crate::raft_core::notification::{Notification, ReplicationResult};
use crate::text;
use crate::time::{Duration, Instant};
use crate::type_config::RaftTypeConfig;
use crate::vote::Vote;

verus! {

broadcast use vstd::std_specs::btree::group_btree_axioms;

/// A heartbeat to send.
#[derive(Clone, Copy, Debug, PartialEq, Eq, Structural)]
pub struct HeartbeatEvent {
    pub time: Instant,
    /// The last log entry that the target is known to hold.
    pub matching: Option<LogId>,
    pub cluster_committed: Option<LogId>,
}

/// A target of a leader and the stream on which the leader replicates to it.
#[derive(Clone, Copy, Debug, PartialEq, Eq, Structural)]
pub struct TargetProgress {
    pub target: u64,
    pub stream_id: u64,
}

/// A worker that sends heartbeats to one node.
pub struct HeartbeatWorker {
    pub id: u64,
    /// The leader that the worker works for.
    pub leader_vote: Vote,
    pub stream_id: u64,
    pub target: u64,
    /// Milliseconds for which an answer is waited for.
    pub heartbeat_interval: u64,
}

/// What ends the wait of a worker.
#[derive(Clone, Copy, Debug, PartialEq, Eq, Structural)]
pub enum WorkerEvent {
    /// The worker is to stop.
    Shutdown,
    /// The heartbeat to send has changed; at first there is none.
    Changed(Option<HeartbeatEvent>),
}

/// What a worker does after a wait.
pub enum WorkerStep<P> {
    /// Stop.
    Stop,
    /// Wait again.
    Wait,
    /// Send a request and wait for its answer for at most `timeout`.
    Send { heartbeat: HeartbeatEvent, request: AppendEntriesRequest<P>, timeout: Duration },
}

/// What came of a heartbeat.
#[derive(Clone, Copy, Debug, PartialEq, Eq)]
pub enum HeartbeatReply {
    /// The node answered.
    Answer(Result<Option<LogId>, StreamAppendError>),
    /// The stream of answers ended without one.
    NoAnswer,
    /// The answer did not come in time, or the network failed.
    Failed,
}

impl HeartbeatReply {
    /// What an answer to a heartbeat whose previous entry is `prev` says as the answer of a stream: a
    /// success is one up to that entry, and a conflict is one at it.  Without a previous entry
    /// nothing conflicts, and the stream gives no answer.
    pub fn of_response(prev: Option<LogId>, response: AppendEntriesResponse) -> (r: HeartbeatReply)
        ensures
            r == (match response {
                AppendEntriesResponse::Success => HeartbeatReply::Answer(Ok(prev)),
                AppendEntriesResponse::PartialSuccess(l) => HeartbeatReply::Answer(Ok(l)),
                AppendEntriesResponse::HigherVote(v) => HeartbeatReply::Answer(
                    Err(StreamAppendError::HigherVote(v)),
                ),
                AppendEntriesResponse::Conflict => match prev {
                    Some(l) => HeartbeatReply::Answer(Err(StreamAppendError::Conflict(l))),
                    None => HeartbeatReply::NoAnswer,
                },
            }),
    {
        match response {
            AppendEntriesResponse::Success => HeartbeatReply::Answer(Ok(prev)),
            AppendEntriesResponse::PartialSuccess(l) => HeartbeatReply::Answer(Ok(l)),
            AppendEntriesResponse::HigherVote(v) => HeartbeatReply::Answer(
                Err(StreamAppendError::HigherVote(v)),
            ),
            AppendEntriesResponse::Conflict => match prev {
                Some(l) => HeartbeatReply::Answer(Err(StreamAppendError::Conflict(l))),
                None => HeartbeatReply::NoAnswer,
            },
        }
    }
}

impl HeartbeatWorker {
    /// `HeartbeatWorker(id=<id>, target=<target>)`.
    pub open spec fn text(self) -> Seq<char> {
        "HeartbeatWorker(id="@ + text::decimal(self.id as nat) + ", target="@ + text::decimal(
            self.target as nat,
        ) + ")"@
    }

    /// `HeartbeatWorker(id=<id>, target=<target>)`.
    pub fn to_string(&self) -> (r: String)
        ensures
            r@ == self.text(),
    {
        let i = text::u64_text(self.id);
        let t = text::u64_text(self.target);
        "HeartbeatWorker(id=".to_owned().concat(i.as_str()).concat(", target=").concat(
            t.as_str(),
        ).concat(")")
    }

    /// What the worker does after a wait: a heartbeat is an append request without entries whose
    /// previous entry is the last one that the target is known to hold, so that a target that lost
    /// it is found out.
    pub fn do_run<P>(&self, event: WorkerEvent) -> (r: WorkerStep<P>)
        ensures
            match event {
                WorkerEvent::Shutdown => r is Stop,
                WorkerEvent::Changed(None) => r is Wait,
                WorkerEvent::Changed(Some(h)) => {
                    &&& r matches WorkerStep::Send { heartbeat, request, timeout }
                    &&& heartbeat == h
                    &&& request.vote == self.leader_vote
                    &&& request.prev_log_id == h.matching
                    &&& request.leader_commit == h.cluster_committed
                    &&& request.entries@ == Seq::<Entry<P>>::empty()
                    &&& timeout.nanos == self.heartbeat_interval * 1_000_000
                },
            },
    {
        match event {
            WorkerEvent::Shutdown => WorkerStep::Stop,
            WorkerEvent::Changed(None) => WorkerStep::Wait,
            WorkerEvent::Changed(Some(heartbeat)) => WorkerStep::Send {
                heartbeat,
                request: AppendEntriesRequest {
                    vote: self.leader_vote,
                    prev_log_id: heartbeat.matching,
                    entries: Vec::new(),
                    leader_commit: heartbeat.cluster_committed,
                },
                timeout: Duration::from_millis(self.heartbeat_interval),
            },
        }
    }

    /// The notification that a heartbeat was acknowledged.
    pub open spec fn progress_spec<C: RaftTypeConfig>(
        self,
        heartbeat: HeartbeatEvent,
    ) -> Notification<C> {
        Notification::HeartbeatProgress {
            stream_id: self.stream_id,
            sending_time: heartbeat.time,
            target: self.target,
        }
    }

    /// The notifications that the answer to a heartbeat gives.
    pub open spec fn result_notifications<C: RaftTypeConfig>(
        self,
        result: Result<Option<LogId>, StreamAppendError>,
        heartbeat: HeartbeatEvent,
    ) -> Seq<Notification<C>> {
        match result {
            Ok(_) => seq![self.progress_spec::<C>(heartbeat)],
            Err(StreamAppendError::HigherVote(vote)) => seq![
                Notification::<C>::HigherVote {
                    target: self.target,
                    higher: vote,
                    leader_vote: self.leader_vote,
                },
            ],
            Err(StreamAppendError::Conflict(_)) => seq![
                Notification::<C>::ReplicationProgress {
                    stream_id: self.stream_id,
                    target: self.target,
                    result: ReplicationResult::Conflict(heartbeat.matching->0),
                    inflight_id: None,
                },
                self.progress_spec::<C>(heartbeat),
            ],
        }
    }

    /// The notifications that the answer to a heartbeat gives.
    ///
    /// A higher vote means that the leadership is not granted, so no progress is reported.  A
    /// conflict is reported at the entry that the target was taken to hold, and still acknowledges
    /// the leader; without such an entry there is no conflict.
    pub fn handle_stream_result<C: RaftTypeConfig>(
        &self,
        result: Result<Option<LogId>, StreamAppendError>,
        heartbeat: &HeartbeatEvent,
    ) -> (r: Vec<Notification<C>>)
        requires
            result matches Err(StreamAppendError::Conflict(_)) ==> heartbeat.matching is Some,
        ensures
            r@ == self.result_notifications::<C>(result, *heartbeat),
    {
        match result {
            Ok(_) => vec![self.send_heartbeat_progress(heartbeat)],
            Err(StreamAppendError::HigherVote(vote)) => vec![
                Notification::HigherVote {
                    target: self.target,
                    higher: vote,
                    leader_vote: self.leader_vote,
                },
            ],
            Err(StreamAppendError::Conflict(_)) => match heartbeat.matching {
                Some(conflict_log_id) => vec![
                    Notification::ReplicationProgress {
                        stream_id: self.stream_id,
                        target: self.target,
                        result: ReplicationResult::Conflict(conflict_log_id),
                        inflight_id: None,
                    },
                    self.send_heartbeat_progress(heartbeat),
                ],
                None => Vec::new(),
            },
        }
    }

    /// The notifications that a heartbeat gives; none unless the target answered.
    pub fn handle_reply<C: RaftTypeConfig>(
        &self,
        reply: HeartbeatReply,
        heartbeat: &HeartbeatEvent,
    ) -> (r: Vec<Notification<C>>)
        requires
            reply matches HeartbeatReply::Answer(Err(StreamAppendError::Conflict(_)))
                ==> heartbeat.matching is Some,
        ensures
            r@ == (match reply {
                HeartbeatReply::Answer(result) => self.result_notifications::<C>(
                    result,
                    *heartbeat,
                ),
                _ => Seq::empty(),
            }),
    {
        match reply {
            HeartbeatReply::Answer(result) => self.handle_stream_result(result, heartbeat),
            HeartbeatReply::NoAnswer => Vec::new(),
            HeartbeatReply::Failed => Vec::new(),
        }
    }

    /// The notification that a heartbeat was acknowledged.
    pub fn send_heartbeat_progress<C: RaftTypeConfig>(&self, heartbeat: &HeartbeatEvent) -> (r:
        Notification<C>)
        ensures
            r == self.progress_spec::<C>(*heartbeat),
    {
        Notification::HeartbeatProgress {
            stream_id: self.stream_id,
            sending_time: heartbeat.time,
            target: self.target,
        }
    }
}

/// The workers of a leader, by their targets; each is known by the stream that it was spawned for.
pub struct HeartbeatWorkersHandle {
    pub id: u64,
    pub workers: BTreeMap<u64, u64>,
}

/// The workers that are left of the old ones, and the new ones, after the given targets were dealt
/// with, and the targets that got a new worker.
pub open spec fn workers_after(
    old: Map<u64, u64>,
    targets: Seq<TargetProgress>,
    close_old: bool,
) -> (Map<u64, u64>, Map<u64, u64>, Seq<TargetProgress>)
    decreases targets.len(),
{
    if targets.len() == 0 {
        (old, Map::empty(), Seq::empty())
    } else {
        let (left, new, spawned) = workers_after(old, targets.drop_last(), close_old);
        let t = targets.last();
        if left.contains_key(t.target) && !close_old {
            (left.remove(t.target), new.insert(t.target, left[t.target]), spawned)
        } else {
            (left.remove(t.target), new.insert(t.target, t.stream_id), spawned.push(t))
        }
    }
}

impl HeartbeatWorkersHandle {
    /// A handle without workers.
    pub fn new(id: u64) -> (r: HeartbeatWorkersHandle)
        ensures
            r.id == id,
            r.workers@ == Map::<u64, u64>::empty(),
    {
        HeartbeatWorkersHandle { id, workers: BTreeMap::new() }
    }

    /// The heartbeats of the workers: each event goes to the worker of its target.
    pub open spec fn delivered(self, events: Seq<(u64, HeartbeatEvent)>) -> Seq<
        (u64, HeartbeatEvent),
    > {
        events.map_values(|e: (u64, HeartbeatEvent)| (self.workers@[e.0], e.1))
    }

    /// Hand each event to the worker of its target, which is known by its stream.  Every target must
    /// have a worker.
    pub fn broadcast(&self, events: &Vec<(u64, HeartbeatEvent)>) -> (r: Vec<(u64, HeartbeatEvent)>)
        requires
            forall|i: int|
                0 <= i < events@.len() ==> self.workers@.contains_key((#[trigger] events@[i]).0),
        ensures
            r@ == self.delivered(events@),
    {
        let mut r: Vec<(u64, HeartbeatEvent)> = Vec::new();
        let mut i: usize = 0;
        while i < events.len()
            invariant
                i <= events.len(),
                forall|i: int|
                    0 <= i < events@.len() ==> self.workers@.contains_key(
                        (#[trigger] events@[i]).0,
                    ),
                r@ == self.delivered(events@.take(i as int)),
            decreases events.len() - i,
        {
            let (target, event) = events[i];
            assert(events@[i as int] == (target, event));
            assert(events@.take(i + 1) =~= events@.take(i as int).push((target, event)));
            if let Some(worker) = self.workers.get(&target) {
                r.push((*worker, event));
            }
            assert(r@ =~= self.delivered(events@.take(i + 1)));
            i = i + 1;
        }
        assert(events@.take(events.len() as int) =~= events@);
        r
    }

    /// Stop all workers.
    pub fn close_workers(&mut self)
        ensures
            final(self).id == old(self).id,
            final(self).workers@ == Map::<u64, u64>::empty(),
    {
        self.workers = BTreeMap::new();
    }

    /// Have a worker for each target and for no other node.  A worker that is there is kept, unless
    /// the old ones are to be closed; the targets that need a new worker are returned, in their
    /// order.
    pub fn spawn_workers(&mut self, targets: &Vec<TargetProgress>, close_old: bool) -> (r: Vec<
        TargetProgress,
    >)
        ensures
            final(self).id == old(self).id,
            final(self).workers@ == workers_after(old(self).workers@, targets@, close_old).1,
            r@ == workers_after(old(self).workers@, targets@, close_old).2,
    {
        let mut new_workers: BTreeMap<u64, u64> = BTreeMap::new();
        let mut spawned: Vec<TargetProgress> = Vec::new();
        let ghost old_map = self.workers@;
        let mut i: usize = 0;
        while i < targets.len()
            invariant
                i <= targets.len(),
                self.id == old(self).id,
                (self.workers@, new_workers@, spawned@) == workers_after(
                    old_map,
                    targets@.take(i as int),
                    close_old,
                ),
            decreases targets.len() - i,
        {
            let t = targets[i];
            assert(targets@.take(i + 1).drop_last() =~= targets@.take(i as int));
            let ghost left = self.workers@;
            let removed = self.workers.remove(&t.target);
            assert(self.workers@ =~= left.remove(t.target));
            match removed {
                Some(stream_id) => {
                    if close_old {
                        spawned.push(t);
                        new_workers.insert(t.target, t.stream_id);
                    } else {
                        new_workers.insert(t.target, stream_id);
                    }
                },
                None => {
                    spawned.push(t);
                    new_workers.insert(t.target, t.stream_id);
                },
            }
            i = i + 1;
        }
        assert(targets@.take(targets.len() as int) =~= targets@);
        self.workers = new_workers;
        spawned
    }
}

/// There is a worker for each target and for no other node.
pub proof fn workers_are_targets(
    old: Map<u64, u64>,
    targets: Seq<TargetProgress>,
    close_old: bool,
    id: u64,
)
    ensures
        workers_after(old, targets, close_old).1.contains_key(id) <==> exists|k: int|
            0 <= k < targets.len() && (#[trigger] targets[k]).target == id,
    decreases targets.len(),
{
    if targets.len() > 0 {
        let t = targets.drop_last();
        workers_are_targets(old, t, close_old, id);
        assert(targets[targets.len() - 1] == targets.last());
        if exists|k: int| 0 <= k < t.len() && (#[trigger] t[k]).target == id {
            let k = choose|k: int| 0 <= k < t.len() && (#[trigger] t[k]).target == id;
            assert(targets[k].target == id);
        }
        if exists|k: int| 0 <= k < targets.len() && (#[trigger] targets[k]).target == id {
            let k = choose|k: int| 0 <= k < targets.len() && (#[trigger] targets[k]).target == id;
            if k < t.len() {
                assert(t[k].target == id);
            }
        }
    }
}

/// With the old workers closed, every target gets a new one.
pub proof fn closing_spawns_all(old: Map<u64, u64>, targets: Seq<TargetProgress>)
    ensures
        workers_after(old, targets, true).2 == targets,
    decreases targets.len(),
{
    if targets.len() > 0 {
        closing_spawns_all(old, targets.drop_last());
        assert(targets.drop_last().push(targets.last()) =~= targets);
    }
}

/// An answer to a heartbeat acknowledges the leader at the time at which the heartbeat was made, for
/// the target and the stream of the worker, unless the answer is a higher vote: then the leader
/// learns of it, with the vote that met it, and of no acknowledgement.  A conflict is told at the
/// entry that the target was taken to hold, before the acknowledgement.
pub proof fn answers_acknowledge_the_leader<C: RaftTypeConfig>(
    w: HeartbeatWorker,
    h: HeartbeatEvent,
    stored: Option<LogId>,
    at: LogId,
    higher: Vote,
)
    ensures
        ({
            let r = w.result_notifications::<C>(Ok(stored), h);
            &&& r.len() == 1
            &&& r[0] == (Notification::<C>::HeartbeatProgress {
                stream_id: w.stream_id,
                sending_time: h.time,
                target: w.target,
            })
        }),
        ({
            let r = w.result_notifications::<C>(Err(StreamAppendError::HigherVote(higher)), h);
            &&& r.len() == 1
            &&& r[0] == (Notification::<C>::HigherVote {
                target: w.target,
                higher,
                leader_vote: w.leader_vote,
            })
        }),
        h.matching matches Some(held) ==> {
            let r = w.result_notifications::<C>(Err(StreamAppendError::Conflict(at)), h);
            &&& r.len() == 2
            &&& r[0] == (Notification::<C>::ReplicationProgress {
                stream_id: w.stream_id,
                target: w.target,
                result: ReplicationResult::Conflict(held),
                inflight_id: None,
            })
            &&& r[1] == (Notification::<C>::HeartbeatProgress {
                stream_id: w.stream_id,
                sending_time: h.time,
                target: w.target,
            })
        },
{
}

/// A worker that is there goes on with its stream where the old ones are not closed; every other
/// target gets a new worker on the stream that is given for it, and only those are spawned.
pub proof fn old_workers_are_kept(
    old: Map<u64, u64>,
    targets: Seq<TargetProgress>,
    close_old: bool,
    k: int,
)
    requires
        forall|i: int, j: int|
            0 <= i < j < targets.len() ==> (#[trigger] targets[i]).target != (
            #[trigger] targets[j]).target,
        0 <= k < targets.len(),
    ensures
        ({
            let t = targets[k];
            let (left, new, spawned) = workers_after(old, targets, close_old);
            &&& new.contains_key(t.target)
            &&& old.contains_key(t.target) && !close_old ==> new[t.target] == old[t.target]
                && !spawned.contains(t)
            &&& !old.contains_key(t.target) || close_old ==> new[t.target] == t.stream_id
                && spawned.contains(t)
        }),
    decreases targets.len(),
{
    let rest = targets.drop_last();
    let last = targets.last();
    let n = targets.len() - 1;
    let (left, new, spawned) = workers_after(old, rest, close_old);
    let (left2, new2, spawned2) = workers_after(old, targets, close_old);
    assert(targets[n] == last);
    assert forall|i: int, j: int| 0 <= i < j < rest.len() implies (#[trigger] rest[i]).target != (
    #[trigger] rest[j]).target by {
        assert(targets[i] == rest[i] && targets[j] == rest[j]);
    }
    assert forall|i: int| 0 <= i < rest.len() implies (#[trigger] rest[i]).target != last.target by {
        assert(targets[i] == rest[i]);
        assert(targets[i].target != targets[n].target);
    }
    lemma_left(old, rest, close_old, last.target);
    assert(spawned2.contains(last) <==> (spawned2.len() > spawned.len())) by {
        if spawned2.len() > spawned.len() {
            assert(spawned2[spawned.len() as int] == last);
        } else if spawned2.contains(last) {
            let i = choose|i: int| 0 <= i < spawned2.len() && spawned2[i] == last;
            lemma_spawned(old, rest, close_old, i);
            let j = choose|j: int| 0 <= j < rest.len() && #[trigger] rest[j] == spawned[i];
            assert(rest[j].target == last.target);
        }
    }
    if k < n {
        assert(rest[k] == targets[k]);
        old_workers_are_kept(old, rest, close_old, k);
        if spawned.contains(targets[k]) {
            let i = choose|i: int| 0 <= i < spawned.len() && spawned[i] == targets[k];
            assert(spawned2[i] == targets[k]);
        }
        if spawned2.contains(targets[k]) {
            let i = choose|i: int| 0 <= i < spawned2.len() && spawned2[i] == targets[k];
            if i < spawned.len() {
                assert(spawned[i] == targets[k]);
            }
        }
    }
}

proof fn lemma_left(old: Map<u64, u64>, targets: Seq<TargetProgress>, close_old: bool, id: u64)
    requires
        forall|i: int| 0 <= i < targets.len() ==> (#[trigger] targets[i]).target != id,
    ensures
        ({
            let left = workers_after(old, targets, close_old).0;
            &&& left.contains_key(id) <==> old.contains_key(id)
            &&& old.contains_key(id) ==> left[id] == old[id]
        }),
    decreases targets.len(),
{
    if targets.len() > 0 {
        let rest = targets.drop_last();
        assert forall|i: int| 0 <= i < rest.len() implies (#[trigger] rest[i]).target != id by {
            assert(targets[i] == rest[i]);
        }
        lemma_left(old, rest, close_old, id);
        assert(targets[targets.len() - 1] == targets.last());
    }
}

proof fn lemma_spawned(old: Map<u64, u64>, targets: Seq<TargetProgress>, close_old: bool, i: int)
    requires
        0 <= i < workers_after(old, targets, close_old).2.len(),
    ensures
        exists|j: int|
            0 <= j < targets.len() && #[trigger] targets[j] == workers_after(
                old,
                targets,
                close_old,
            ).2[i],
    decreases targets.len(),
{
    let rest = targets.drop_last();
    let spawned = workers_after(old, rest, close_old).2;
    if i < spawned.len() {
        lemma_spawned(old, rest, close_old, i);
        let j = choose|j: int| 0 <= j < rest.len() && #[trigger] rest[j] == spawned[i];
        assert(targets[j] == rest[j]);
    } else {
        assert(targets[targets.len() - 1] == targets.last());
    }
}

/// Each heartbeat reaches the worker of its target, as it is and in its turn.
pub proof fn heartbeats_reach_their_workers(
    handle: HeartbeatWorkersHandle,
    events: Seq<(u64, HeartbeatEvent)>,
    i: int,
)
    ensures
        handle.delivered(events).len() == events.len(),
        0 <= i < events.len() ==> handle.delivered(events)[i].0 == handle.workers@[events[i].0]
            && handle.delivered(events)[i].1 == events[i].1,
{
}

/// A worker sends a heartbeat as an append request without entries under the vote of its leader, whose
/// previous entry is the last one that the target is known to hold, and waits for an interval.  It
/// stops when it is told to, and waits on where there is no heartbeat yet.
pub proof fn worker_calls<P>(w: HeartbeatWorker, event: WorkerEvent, r: WorkerStep<P>)
    requires
        call_ensures(HeartbeatWorker::do_run::<P>, (&w, event), r),
    ensures
        event is Shutdown ==> r is Stop,
        event matches WorkerEvent::Changed(None) ==> r is Wait,
        event matches WorkerEvent::Changed(Some(h)) ==> (r matches WorkerStep::Send {
            heartbeat,
            request,
            timeout,
        } && heartbeat == h && request.vote == w.leader_vote && request.prev_log_id == h.matching
            && request.leader_commit == h.cluster_committed && request.entries@.len() == 0
            && timeout.nanos == w.heartbeat_interval * 1_000_000),
{
}

/// An answer is taken at the entry that it was asked about: a success goes up to it, a conflict is at
/// it.  A conflict where nothing was asked about is no answer, and who does not answer tells nothing.
pub proof fn answer_calls<C: RaftTypeConfig>(
    w: HeartbeatWorker,
    prev: Option<LogId>,
    response: AppendEntriesResponse,
    h: HeartbeatEvent,
    reply: HeartbeatReply,
    taken: HeartbeatReply,
    r: Vec<Notification<C>>,
)
    ensures
        call_ensures(HeartbeatReply::of_response, (prev, response), taken) ==> match response {
            AppendEntriesResponse::Success => taken == HeartbeatReply::Answer(Ok(prev)),
            AppendEntriesResponse::PartialSuccess(l) => taken == HeartbeatReply::Answer(Ok(l)),
            AppendEntriesResponse::HigherVote(v) => taken == HeartbeatReply::Answer(
                Err(StreamAppendError::HigherVote(v)),
            ),
            AppendEntriesResponse::Conflict => (prev matches Some(l) ==> taken
                == HeartbeatReply::Answer(Err(StreamAppendError::Conflict(l)))) && (prev is None
                ==> taken is NoAnswer),
        },
        call_ensures(HeartbeatWorker::handle_reply::<C>, (&w, reply, &h), r) ==> {
            &&& reply matches HeartbeatReply::Answer(result) ==> r@ == w.result_notifications::<C>(
                result,
                h,
            )
            &&& !(reply is Answer) ==> r@.len() == 0
        },
{
}

/// The workers are made anew, told of heartbeats and closed as their laws say.
pub proof fn handle_calls(
    handle: &mut HeartbeatWorkersHandle,
    targets: Vec<TargetProgress>,
    close_old: bool,
    spawned: Vec<TargetProgress>,
    seen: HeartbeatWorkersHandle,
    events: Vec<(u64, HeartbeatEvent)>,
    sent: Vec<(u64, HeartbeatEvent)>,
    closed: (),
)
    ensures
        call_ensures(HeartbeatWorkersHandle::spawn_workers, (handle, &targets, close_old), spawned)
            ==> {
            let (left, new, fresh) = workers_after(old(handle).workers@, targets@, close_old);
            final(handle).workers@ == new && spawned@ == fresh && final(handle).id == old(handle).id
        },
        call_ensures(HeartbeatWorkersHandle::close_workers, (handle,), closed) ==> final(handle).workers@.dom() == Set::<u64>::empty() && final(handle).id == old(handle).id,
        call_ensures(HeartbeatWorkersHandle::broadcast, (&seen, &events), sent) ==> sent@
            == seen.delivered(events@),
{
}

} // verus!
