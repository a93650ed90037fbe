//! How linearizable reads are answered, and what is done on the way.

use vstd::prelude::*;
use crate::errors::{LinearizableReadError, QuorumNotEnough};
use crate::log_id::LogId;
use crate::message::LinearizerOption;
use crate::raft_core::action::{CoreAction, Recorded};
use crate::raft_core::handlers::{RaftCore, ReadOutcome};
use crate::raft_core::handlers;
use crate::raft_core::pending_reads::{Linearizer, PendingRead};
use crate::raft_core::pending_reads;
use crate::raft_core::raft_msg::ExternalCommand;
use crate::seqs;
use crate::time::Instant;
use crate::type_config::RaftTypeConfig;
use crate::vote::IOId;

verus! {

/// A read is answered at once by a leader that is a quorum by itself, or that a quorum acknowledged
/// less than the allowed age ago.  The answer names this node, what it has applied and what has to
/// be applied: the first entry of the leader, and what is committed unless that comes before it.
pub proof fn confirmed_leader_answers_at_once<C: RaftTypeConfig>(
    core: RaftCore<C>,
    now: Instant,
    option: LinearizerOption,
    tx: u64,
)
    requires
        core.engine.leader matches Some(l) && l.transfer_to is None && (l.self_quorum || (
        l.last_quorum_acked matches Some(t) && now.nanos < t.nanos + (
        match option.max_quorum_ack_age {
            Some(age) => age.nanos,
            None => core.timer_config.leader_lease.nanos,
        }))),
    ensures
        core.read_outcome(now, option, tx) matches ReadOutcome::Reply(Ok(answer)) && {
            let noop = core.engine.leader->0.noop_log_id;
            &&& answer.node_id == core.id
            &&& answer.applied == core.engine.state.io_applied
            &&& answer.read_log_id.noop_log_id == noop
            &&& (core.engine.state.local_committed matches Some(c) && noop.at_most(c))
                ==> answer.read_log_id.committed == core.engine.state.local_committed
            &&& (core.engine.state.local_committed matches Some(c) && !noop.at_most(c))
                ==> answer.read_log_id.committed is None
            &&& core.engine.state.local_committed is None ==> answer.read_log_id.committed is None
        },
{
}

/// A read that no recent quorum confirms waits for one: the acknowledgement must come from after
/// the allowed age, and until the allowed wait is over.  A heartbeat is sent for it if it asks for
/// one.  A read that may not wait is told at once since when a quorum is missing.
pub proof fn unconfirmed_leader_lets_reads_wait<C: RaftTypeConfig>(
    core: RaftCore<C>,
    now: Instant,
    option: LinearizerOption,
    tx: u64,
    age: int,
    wait: int,
)
    requires
        age == (match option.max_quorum_ack_age {
            Some(d) => d.nanos,
            None => core.timer_config.leader_lease.nanos,
        }),
        wait == (match option.wait_timeout {
            Some(d) => d.nanos,
            None => core.timer_config.leader_lease.nanos,
        }),
        age <= now.nanos,
        now.nanos + wait <= u128::MAX,
        core.engine.leader matches Some(l) && l.transfer_to is None && !l.self_quorum,
        core.engine.leader->0.last_quorum_acked matches Some(t) ==> now.nanos >= t.nanos + age,
    ensures
        wait == 0 ==> (core.read_outcome(now, option, tx) matches ReadOutcome::Reply(
            Err(LinearizableReadError::QuorumNotEnough(QuorumNotEnough { min_quorum_acked_at })),
        ) && min_quorum_acked_at.nanos == now.nanos - age),
        wait > 0 ==> (core.read_outcome(now, option, tx) matches ReadOutcome::Wait {
            heartbeat,
            read,
        } && {
            let noop = core.engine.leader->0.noop_log_id;
            &&& heartbeat == option.heartbeat_if_quorum_ack_stale
            &&& read.tx == tx
            &&& read.min_quorum_acked_at.nanos == now.nanos - age
            &&& read.deadline.nanos == now.nanos + wait
            &&& read.linearizer.node_id == core.id
            &&& read.linearizer.read_log_id.noop_log_id == noop
            &&& read.linearizer.read_log_id.committed == (match core.engine.state.local_committed {
                Some(c) => if noop.at_most(c) {
                    Some(c)
                } else {
                    None
                },
                None => None,
            })
        }),
{
}

/// A node that does not lead, or hands its leadership over, answers a read at once with where to
/// ask instead, whatever the read allows.
pub proof fn other_nodes_forward_reads<C: RaftTypeConfig>(
    core: RaftCore<C>,
    now: Instant,
    option: LinearizerOption,
    tx: u64,
)
    requires
        core.engine.leader matches Some(l) ==> l.transfer_to is Some,
    ensures
        core.leading() matches Err(f) && core.read_outcome(now, option, tx) == ReadOutcome::Reply(
            Err::<Linearizer, _>(LinearizableReadError::ForwardToLeader(f)),
        ),
{
}

/// The times of a read matter only where it is not answered at once; then the age must not reach
/// before the clock began and a wait must end while it can be told.
pub proof fn answered_reads_need_no_times<C: RaftTypeConfig>(
    core: RaftCore<C>,
    now: Instant,
    option: LinearizerOption,
    tx: u64,
    age: int,
    wait: int,
)
    requires
        age == (match option.max_quorum_ack_age {
            Some(d) => d.nanos,
            None => core.timer_config.leader_lease.nanos,
        }),
        wait == (match option.wait_timeout {
            Some(d) => d.nanos,
            None => core.timer_config.leader_lease.nanos,
        }),
    ensures
        core.engine.leader is None ==> core.read_times_fit(now, option),
        core.engine.leader matches Some(l) && (l.transfer_to is Some || l.self_quorum)
            ==> core.read_times_fit(now, option),
        core.engine.leader matches Some(l) && l.last_quorum_acked matches Some(t) && now.nanos
            < t.nanos + age ==> core.read_times_fit(now, option),
        age <= now.nanos && (wait == 0 || now.nanos + wait <= u128::MAX) ==> core.read_times_fit(
            now,
            option,
        ),
        core.read_times_fit(now, option) && core.read_outcome(now, option, tx) is Wait ==> age
            <= now.nanos && now.nanos + wait <= u128::MAX,
        core.read_times_fit(now, option) && (core.read_outcome(
            now,
            option,
            tx,
        ) matches ReadOutcome::Reply(Err(LinearizableReadError::QuorumNotEnough(_)))) ==> age
            <= now.nanos,
{
}

/// A read that is answered at once joins nobody; one that waits joins behind the others, and the
/// core is woken at the first deadline of all that wait.  Nothing else of the core changes.
pub proof fn waiting_reads_queue_up<C: RaftTypeConfig>(
    core: RaftCore<C>,
    new: RaftCore<C>,
    now: Instant,
    option: LinearizerOption,
    tx: u64,
    actions: Seq<CoreAction<C>>,
    i: int,
)
    requires
        core.after_read(now, option, tx, new, actions),
    ensures
        new.engine == core.engine && new.client_responders == core.client_responders
            && new.replications == core.replications && new.id == core.id && new.config
            == core.config && new.runtime_config == core.runtime_config && new.timer_config
            == core.timer_config && new.snapshot_tried_at == core.snapshot_tried_at
            && new.metrics_recorder == core.metrics_recorder,
        core.read_outcome(now, option, tx) matches ReadOutcome::Reply(result) ==> new.pending_reads@
            == core.pending_reads@ && actions == seq![CoreAction::<C>::ReplyRead { tx, result }],
        core.read_outcome(now, option, tx) matches ReadOutcome::Wait { heartbeat, read } ==> {
            let queue = new.pending_reads@;
            &&& queue.len() == core.pending_reads@.len() + 1
            &&& queue.last() == read
            &&& 0 <= i < core.pending_reads@.len() ==> queue[i] == core.pending_reads@[i]
            &&& actions.len() == (if heartbeat {
                2int
            } else {
                1
            })
            &&& heartbeat ==> actions[0] == (CoreAction::<C>::SendHeartbeat {
                bypass_min_interval: true,
            })
            &&& actions.last() matches CoreAction::SetReadDeadline { deadline: Some(d) }
            &&& 0 <= i < queue.len() ==> d.nanos <= queue[i].deadline.nanos
            &&& exists|k: int| 0 <= k < queue.len() && (#[trigger] queue[k]).deadline == d
        },
{
    pending_reads::earliest_is_least(new.pending_reads@);
}

/// The answer that a waiting read gets when a leader has been acknowledged after the time that the
/// read asks for.
pub open spec fn granted<C: RaftTypeConfig>(core: RaftCore<C>, p: PendingRead) -> CoreAction<C> {
    CoreAction::<C>::ReplyRead {
        tx: p.tx,
        result: Ok(
            Linearizer {
                node_id: p.linearizer.node_id,
                read_log_id: p.linearizer.read_log_id,
                applied: core.engine.state.io_applied,
            },
        ),
    }
}

/// The answer that a waiting read gets that has waited too long.
pub open spec fn given_up<C: RaftTypeConfig>(p: PendingRead) -> CoreAction<C> {
    CoreAction::<C>::ReplyRead {
        tx: p.tx,
        result: Err(
            LinearizableReadError::QuorumNotEnough(
                QuorumNotEnough { min_quorum_acked_at: p.min_quorum_acked_at },
            ),
        ),
    }
}

/// The answer that a waiting read gets from a node that does not lead any more.
pub open spec fn sent_on<C: RaftTypeConfig>(core: RaftCore<C>, p: PendingRead) -> CoreAction<C> {
    CoreAction::<C>::ReplyRead {
        tx: p.tx,
        result: Err(LinearizableReadError::ForwardToLeader(core.engine.state.forward())),
    }
}

proof fn lemma_mapped<A, B>(s: Seq<A>, f: spec_fn(A) -> B, a: A)
    requires
        s.contains(a),
    ensures
        s.map_values(f).contains(f(a)),
{
    let i = choose|i: int| 0 <= i < s.len() && s[i] == a;
    assert(s.map_values(f)[i] == f(a));
}

proof fn lemma_part<A>(a: Seq<A>, b: Seq<A>, c: A, x: A)
    ensures
        a.contains(x) ==> (a + b).push(c).contains(x) && (a + b).contains(x),
        b.contains(x) ==> (a + b).push(c).contains(x) && (a + b).contains(x),
{
    if a.contains(x) {
        let i = choose|i: int| 0 <= i < a.len() && a[i] == x;
        assert((a + b)[i] == x);
        assert((a + b).push(c)[i] == x);
    }
    if b.contains(x) {
        let i = choose|i: int| 0 <= i < b.len() && b[i] == x;
        assert((a + b)[a.len() + i] == x);
        assert((a + b).push(c)[a.len() + i] == x);
    }
}

/// A check of the waiting reads deals with each of them as it must: a leader grants those that a
/// quorum confirmed after the time they ask for, even if their deadline has passed, gives up those
/// whose deadline has come, and leaves the rest waiting.  A node that does not lead sends all of
/// them on and leaves none.
pub proof fn waiting_reads_are_dealt_with<C: RaftTypeConfig>(
    core: RaftCore<C>,
    now: Instant,
    p: PendingRead,
)
    requires
        core.pending_reads@.contains(p),
    ensures
        core.engine.leader matches Some(l) ==> {
            let confirmed = l.last_quorum_acked matches Some(t) && p.min_quorum_acked_at.nanos
                < t.nanos;
            let late = p.deadline.nanos <= now.nanos;
            &&& confirmed ==> core.pending_read_actions(now).contains(granted(core, p))
            &&& !confirmed && late ==> core.pending_read_actions(now).contains(given_up(p))
            &&& core.reads_left(now).contains(p) <==> !confirmed && !late
        },
        core.engine.leader is None ==> {
            &&& core.pending_read_actions(now).contains(sent_on(core, p))
            &&& core.reads_left(now).len() == 0
        },
{
    let q = core.pending_reads@;
    let end = CoreAction::<C>::SetReadDeadline {
        deadline: pending_reads::earliest(core.reads_left(now)),
    };
    match core.engine.leader {
        Some(l) => {
            let un = core.reads_unsatisfied();
            let ex = seqs::keep_if(un, pending_reads::expired(now));
            let granting = |p: PendingRead|
                CoreAction::<C>::ReplyRead {
                    tx: p.tx,
                    result: Ok(
                        Linearizer {
                            node_id: p.linearizer.node_id,
                            read_log_id: p.linearizer.read_log_id,
                            applied: core.engine.state.io_applied,
                        },
                    ),
                };
            let giving_up = |p: PendingRead|
                CoreAction::<C>::ReplyRead {
                    tx: p.tx,
                    result: Err(
                        LinearizableReadError::QuorumNotEnough(
                            QuorumNotEnough { min_quorum_acked_at: p.min_quorum_acked_at },
                        ),
                    ),
                };
            let a = handlers::satisfy_reads::<C>(
                core.reads_satisfied(),
                core.engine.state.io_applied,
            );
            let b = handlers::expire_reads::<C>(ex);
            assert(a =~= core.reads_satisfied().map_values(granting));
            assert(b =~= ex.map_values(giving_up));
            match l.last_quorum_acked {
                Some(t) => {
                    seqs::keep_if_contains(q, pending_reads::satisfied(t), p);
                    seqs::keep_if_contains(q, pending_reads::unsatisfied(t), p);
                },
                None => {},
            }
            seqs::keep_if_contains(un, pending_reads::expired(now), p);
            seqs::keep_if_contains(un, pending_reads::unexpired(now), p);
            if core.reads_satisfied().contains(p) {
                lemma_mapped(core.reads_satisfied(), granting, p);
            }
            if ex.contains(p) {
                lemma_mapped(ex, giving_up, p);
            }
            lemma_part(a, b, end, granted(core, p));
            lemma_part(a, b, end, given_up(p));
        },
        None => {
            let sending = |p: PendingRead|
                CoreAction::<C>::ReplyRead {
                    tx: p.tx,
                    result: Err(LinearizableReadError::ForwardToLeader(core.engine.state.forward())),
                };
            let a = handlers::fail_reads::<C>(
                q,
                LinearizableReadError::ForwardToLeader(core.engine.state.forward()),
            );
            assert(a =~= q.map_values(sending));
            lemma_mapped(q, sending, p);
            lemma_part(a, Seq::empty(), end, sent_on(core, p));
            assert(a + Seq::empty() =~= a);
        },
    }
}

/// A check of the waiting reads answers as many as leave the queue, each once, and nobody else; then
/// it sets the time of the next check to the first deadline of those that are left, if any are.
pub proof fn reads_are_answered_once<C: RaftTypeConfig>(core: RaftCore<C>, now: Instant, i: int)
    ensures
        ({
            let actions = core.pending_read_actions(now);
            let left = core.reads_left(now);
            &&& actions.len() - 1 + left.len() == core.pending_reads@.len()
            &&& 0 <= i < actions.len() - 1 ==> exists|p: PendingRead|
                core.pending_reads@.contains(p) && (actions[i] == granted(core, p) || actions[i]
                    == #[trigger] given_up::<C>(p) || actions[i] == sent_on(core, p))
            &&& actions.last() matches CoreAction::SetReadDeadline { deadline }
            &&& deadline is None <==> left.len() == 0
            &&& deadline matches Some(d) ==> {
                &&& exists|k: int| 0 <= k < left.len() && (#[trigger] left[k]).deadline == d
                &&& 0 <= i < left.len() ==> d.nanos <= left[i].deadline.nanos
            }
        }),
{
    let q = core.pending_reads@;
    let actions = core.pending_read_actions(now);
    let left = core.reads_left(now);
    pending_reads::earliest_is_least(left);
    match core.engine.leader {
        Some(l) => {
            let sat = core.reads_satisfied();
            let un = core.reads_unsatisfied();
            let ex = seqs::keep_if(un, pending_reads::expired(now));
            match l.last_quorum_acked {
                Some(t) => {
                    seqs::keep_if_splits(
                        q,
                        pending_reads::satisfied(t),
                        pending_reads::unsatisfied(t),
                    );
                },
                None => {},
            }
            seqs::keep_if_splits(un, pending_reads::expired(now), pending_reads::unexpired(now));
            if 0 <= i < sat.len() {
                let p = sat[i];
                assert(sat.contains(p));
                match l.last_quorum_acked {
                    Some(t) => {
                        seqs::keep_if_contains(q, pending_reads::satisfied(t), p);
                    },
                    None => {},
                }
                assert(actions[i] == granted(core, p));
                assert(actions[i] == given_up::<C>(p) || actions[i] == granted(core, p));
            } else if sat.len() <= i < sat.len() + ex.len() {
                let p = ex[i - sat.len()];
                assert(ex.contains(p));
                seqs::keep_if_contains(un, pending_reads::expired(now), p);
                match l.last_quorum_acked {
                    Some(t) => {
                        seqs::keep_if_contains(q, pending_reads::unsatisfied(t), p);
                    },
                    None => {},
                }
                assert(actions[i] == given_up::<C>(p));
            }
        },
        None => {
            if 0 <= i < q.len() {
                let p = q[i];
                assert(q.contains(p));
                assert(actions[i] == sent_on(core, p));
                assert(actions[i] == given_up::<C>(p) || actions[i] == sent_on(core, p));
            }
        },
    }
}

/// The reads that are left go on waiting in the order in which they came.
pub proof fn reads_keep_their_order<C: RaftTypeConfig>(
    core: RaftCore<C>,
    now: Instant,
    j: int,
    k: int,
)
    requires
        core.engine.leader is Some,
        0 <= j < k < core.reads_left(now).len(),
    ensures
        exists|x: int, y: int|
            0 <= x < y < core.pending_reads@.len() && core.reads_left(now)[j]
                == #[trigger] core.pending_reads@[x] && core.reads_left(now)[k]
                == #[trigger] core.pending_reads@[y],
{
    let q = core.pending_reads@;
    let un = core.reads_unsatisfied();
    let f = pending_reads::unexpired(now);
    lemma_order(un, f, j, k);
    let (x, y) = choose|x: int, y: int|
        0 <= x < y < un.len() && seqs::keep_if(un, f)[j] == #[trigger] un[x] && seqs::keep_if(
            un,
            f,
        )[k] == #[trigger] un[y];
    match core.engine.leader->0.last_quorum_acked {
        Some(t) => {
            lemma_order(q, pending_reads::unsatisfied(t), x, y);
        },
        None => {
            assert(q[x] == un[x] && q[y] == un[y]);
        },
    }
}

/// The reads that are granted are answered first, in the order in which they came: each behind those
/// before it that are granted too.
pub proof fn granted_reads_are_answered_in_order<C: RaftTypeConfig>(
    core: RaftCore<C>,
    now: Instant,
    t: Instant,
    k: int,
)
    requires
        core.engine.leader matches Some(l) && l.last_quorum_acked == Some(t),
        0 <= k < core.pending_reads@.len(),
        core.pending_reads@[k].min_quorum_acked_at.nanos < t.nanos,
    ensures
        ({
            let before = seqs::keep_if(
                core.pending_reads@.take(k),
                |p: PendingRead| p.min_quorum_acked_at.nanos < t.nanos,
            );
            &&& before.len() < core.pending_read_actions(now).len()
            &&& core.pending_read_actions(now)[before.len() as int] == granted(
                core,
                core.pending_reads@[k],
            )
        }),
{
    let q = core.pending_reads@;
    let f = |p: PendingRead| p.min_quorum_acked_at.nanos < t.nanos;
    assert(f =~= pending_reads::satisfied(t));
    seqs::kept_items_keep_their_order(q, f, k, -1);
}

proof fn lemma_order<A>(s: Seq<A>, f: spec_fn(A) -> bool, j: int, k: int)
    requires
        0 <= j < k < seqs::keep_if(s, f).len(),
    ensures
        exists|x: int, y: int|
            0 <= x < y < s.len() && seqs::keep_if(s, f)[j] == #[trigger] s[x] && seqs::keep_if(
                s,
                f,
            )[k] == #[trigger] s[y],
{
    seqs::kept_items_keep_their_order(s, f, -1, j);
    seqs::kept_items_keep_their_order(s, f, -1, k);
    let x = choose|x: int|
        0 <= x < s.len() && f(#[trigger] s[x]) && s[x] == seqs::keep_if(s, f)[j] && seqs::keep_if(
            s.take(x),
            f,
        ).len() == j;
    let y = choose|y: int|
        0 <= y < s.len() && f(#[trigger] s[y]) && s[y] == seqs::keep_if(s, f)[k] && seqs::keep_if(
            s.take(y),
            f,
        ).len() == k;
    if y <= x {
        if y < x {
            assert(s.take(x).take(y) =~= s.take(y));
            seqs::kept_items_keep_their_order(s.take(x), f, y, -1);
        }
    }
    assert(s[x] == seqs::keep_if(s, f)[j] && s[y] == seqs::keep_if(s, f)[k]);
}

/// An acknowledgement confirms a read exactly if it comes after the time that the read asks for, and
/// a read is late from its deadline on.
pub proof fn acknowledgements_must_be_newer(p: PendingRead, t: Instant)
    ensures
        p.satisfied_by(t) <==> t.nanos > p.min_quorum_acked_at.nanos,
        p.expired_at(t) <==> t.nanos >= p.deadline.nanos,
        pending_reads::satisfied(t)(p) <==> t.nanos > p.min_quorum_acked_at.nanos,
        pending_reads::unsatisfied(t)(p) <==> t.nanos <= p.min_quorum_acked_at.nanos,
        pending_reads::expired(t)(p) <==> t.nanos >= p.deadline.nanos,
        pending_reads::unexpired(t)(p) <==> t.nanos < p.deadline.nanos,
{
}

/// A leader that does not hand its leadership over sends a heartbeat when it is asked to, which
/// heeds the least interval, and counts it where it is measured.  No other node sends one.
pub proof fn only_a_leader_sends_heartbeats<C: RaftTypeConfig>(core: RaftCore<C>)
    ensures
        ({
            let actions = core.external_actions(ExternalCommand::Heartbeat);
            &&& (core.engine.leader matches Some(l) && l.transfer_to is None) ==> {
                &&& core.heartbeat_sent()
                &&& actions.len() > 0
                &&& actions[0] == (CoreAction::<C>::SendHeartbeat { bypass_min_interval: false })
                &&& core.metrics_recorder is Some ==> actions.len() == 2 && actions[1] == (
                CoreAction::<C>::Record {
                    recorder: core.metrics_recorder->0,
                    what: Recorded::Heartbeat,
                })
                &&& core.metrics_recorder is None ==> actions.len() == 1
            }
            &&& (core.engine.leader matches Some(l) ==> l.transfer_to is Some) ==> {
                &&& !core.heartbeat_sent()
                &&& actions.len() == 0
            }
            &&& actions == core.heartbeat_actions()
        }),
{
}

/// A heartbeat falls due at its time, on a leader only.
pub proof fn heartbeats_fall_due_on_leaders<C: RaftTypeConfig>(core: RaftCore<C>, now: Instant)
    ensures
        core.heartbeat_due(now) <==> (core.engine.leader matches Some(l) && l.next_heartbeat.nanos
            <= now.nanos),
{
}

/// After a round of messages a snapshot is built where one is asked for, and a leader looks after
/// its replications; what was submitted to the log store is told on.  In this order, each at most
/// once.
pub proof fn rounds_end_with_the_routine<C: RaftTypeConfig>(
    core: RaftCore<C>,
    at: LogId,
    io_id: IOId,
)
    ensures
        ({
            let leads = core.engine.leader is Some;
            let submitted = core.engine.state.log_progress.submitted;
            let some = core.routine_prefix(Some(at));
            let none = core.routine_prefix(None);
            &&& some == seq![CoreAction::<C>::TriggerSnapshot { at: Some(at) }] + none
            &&& leads && submitted == Some(io_id) ==> none == seq![
                CoreAction::<C>::InitiateReplication,
                CoreAction::<C>::BroadcastSubmitted { io_id },
            ]
            &&& leads && submitted is None ==> none == seq![CoreAction::<C>::InitiateReplication]
            &&& !leads && submitted == Some(io_id) ==> none == seq![
                CoreAction::<C>::BroadcastSubmitted { io_id },
            ]
            &&& !leads && submitted is None ==> none.len() == 0
        }),
{
    assert(core.routine_prefix(Some(at)) =~= seq![
        CoreAction::<C>::TriggerSnapshot { at: Some(at) },
    ] + core.routine_prefix(None));
}

/// A recorder that is set is told of what happened, once; without one nobody is.
pub proof fn recorders_are_told<C: RaftTypeConfig>(recorder: u64, what: Recorded)
    ensures
        handlers::recorded::<C>(Some(recorder), what) == seq![
            CoreAction::<C>::Record { recorder, what },
        ],
        handlers::recorded::<C>(None, what).len() == 0,
{
}

/// The leader of a committed vote is the node of that vote; of another vote there is none.  What is
/// known of a leader is what the membership in effect tells.
pub proof fn leaders_have_committed_votes<C: RaftTypeConfig>(core: RaftCore<C>, id: u64)
    ensures
        ({
            let vote = core.engine.state.vote.vote;
            let nodes = core.engine.state.membership_state.effective.membership.nodes@;
            let forward = core.current_forward();
            &&& vote.committed ==> core.leader_id_spec() == Some(vote.leader_id.node_id)
            &&& !vote.committed ==> core.leader_id_spec() is None
            &&& nodes.contains_key(id) ==> core.leader_node_spec(Some(id)) == Some(nodes[id])
            &&& !nodes.contains_key(id) ==> core.leader_node_spec(Some(id)) is None
            &&& core.leader_node_spec(None) is None
            &&& forward.leader_id is Some <==> vote.committed
            &&& forward.leader_id matches Some(l) ==> l == vote.leader_id.node_id
            &&& forward.leader_node is Some <==> vote.committed && nodes.contains_key(
                vote.leader_id.node_id,
            )
            &&& forward.leader_node matches Some(n) ==> n == nodes[vote.leader_id.node_id]
        }),
{
}

} // verus!
