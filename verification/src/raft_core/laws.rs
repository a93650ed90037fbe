//! What holds of the core of a node as a whole.

use vstd::prelude::*;
use crate::batch::Batch;
use crate::errors::ForwardToLeader;
use crate::log_id::LogId;
use crate::log_id;
use crate::message::LinearizerOption;
use crate::raft_core::action::CoreAction;
use crate::raft_core::handlers::{RaftCore, ReadOutcome};
use crate::raft_core::handlers;
use crate::raft_core::notification::Notification;
use crate::raft_core::raft_msg::ExternalCommand;
use crate::raft_core::responders;
use crate::raft_core::state::ServerState;
use crate::seqs;
use crate::time::Instant;
use crate::type_config::RaftTypeConfig;
use crate::vote::Vote;

verus! {

/// Whether an action appends entries as a leader.
pub open spec fn appends<C: RaftTypeConfig>(a: CoreAction<C>) -> bool {
    a is LeaderAppend
}

/// Only a leader with a valid lease that does not hand its leadership over appends what clients
/// write.
pub proof fn only_a_writable_leader_appends<C: RaftTypeConfig>(
    core: RaftCore<C>,
    payloads: Batch<C::Payload>,
    responders: Batch<Option<u64>>,
    i: int,
)
    requires
        0 <= i < core.write_actions(payloads, responders).len(),
        appends(core.write_actions(payloads, responders)[i]),
    ensures
        core.engine.leader matches Some(l) && l.lease_valid && l.transfer_to is None,
{
    if core.writable() is Err {
        lemma_failures::<C>(responders@, core.writable()->Err_0, i);
    }
}

proof fn lemma_failures<C: RaftTypeConfig>(
    responders: Seq<Option<u64>>,
    error: ForwardToLeader<C::Node>,
    i: int,
)
    requires
        0 <= i < handlers::fail_writers::<C>(responders, error).len(),
    ensures
        handlers::fail_writers::<C>(responders, error)[i] is FailWrite,
    decreases responders.len(),
{
    let before = handlers::fail_writers::<C>(responders.drop_last(), error);
    if i < before.len() {
        lemma_failures::<C>(responders.drop_last(), error, i);
    }
}

/// The writers that wait for an answer.
pub open spec fn waiting(responders: Seq<Option<u64>>) -> Seq<u64>
    decreases responders.len(),
{
    if responders.len() == 0 {
        Seq::empty()
    } else {
        match responders.last() {
            Some(tx) => waiting(responders.drop_last()).push(tx),
            None => waiting(responders.drop_last()),
        }
    }
}

/// Who is told of a failure.
pub open spec fn told<C: RaftTypeConfig>(actions: Seq<CoreAction<C>>) -> Seq<u64> {
    actions.map_values(|a: CoreAction<C>| a->FailWrite_tx)
}

/// A refused write is answered in full: each writer that waits for an answer gets one, in their
/// order, and nobody else does.
pub proof fn refused_writers_are_answered<C: RaftTypeConfig>(
    responders: Seq<Option<u64>>,
    error: ForwardToLeader<C::Node>,
)
    ensures
        told::<C>(handlers::fail_writers::<C>(responders, error)) == waiting(responders),
    decreases responders.len(),
{
    if responders.len() > 0 {
        let rest = responders.drop_last();
        refused_writers_are_answered::<C>(rest, error);
        let before = handlers::fail_writers::<C>(rest, error);
        let all = handlers::fail_writers::<C>(responders, error);
        match responders.last() {
            Some(tx) => {
                assert(told::<C>(all) =~= told::<C>(before).push(tx));
            },
            None => {},
        }
    }
    assert(told::<C>(handlers::fail_writers::<C>(responders, error)) =~= waiting(responders));
}

/// The writers of appended entries wait at the indexes of their entries, behind those that waited
/// before, and nobody is left out.
pub proof fn appended_writers_wait<C: RaftTypeConfig>(
    queue: Seq<(u64, u64)>,
    log_ids: Seq<LogId>,
    responders: Seq<Option<u64>>,
)
    requires
        log_ids.len() == responders.len(),
    ensures
        ({
            let after = RaftCore::<C>::with_writers(queue, log_ids, responders);
            &&& after.len() == queue.len() + waiting(responders).len()
            &&& after.take(queue.len() as int) =~= queue
            &&& after.skip(queue.len() as int).map_values(|x: (u64, u64)| x.1) =~= waiting(
                responders,
            )
        }),
{
    lemma_wait::<C>(queue, log_ids, responders);
}

proof fn lemma_wait<C: RaftTypeConfig>(
    queue: Seq<(u64, u64)>,
    log_ids: Seq<LogId>,
    responders: Seq<Option<u64>>,
)
    requires
        responders.len() <= log_ids.len(),
    ensures
        ({
            let after = RaftCore::<C>::with_writers(queue, log_ids, responders);
            &&& after.len() == queue.len() + waiting(responders).len()
            &&& after.take(queue.len() as int) =~= queue
            &&& after.skip(queue.len() as int).map_values(|x: (u64, u64)| x.1) =~= waiting(
                responders,
            )
        }),
    decreases responders.len(),
{
    if responders.len() > 0 {
        let rest = responders.drop_last();
        lemma_wait::<C>(queue, log_ids, rest);
        let before = RaftCore::<C>::with_writers(queue, log_ids, rest);
        let after = RaftCore::<C>::with_writers(queue, log_ids, responders);
        match responders.last() {
            Some(tx) => {
                assert(after.skip(queue.len() as int) =~= before.skip(queue.len() as int).push(
                    (log_ids[responders.len() - 1].index, tx),
                ));
                assert(after.skip(queue.len() as int).map_values(|x: (u64, u64)| x.1)
                    =~= before.skip(queue.len() as int).map_values(|x: (u64, u64)| x.1).push(tx));
            },
            None => {},
        }
    }
}

/// A linearizable read is answered at once only by a leader that a quorum is known to have
/// confirmed: it alone is a quorum, or a quorum acknowledged it less than the allowed age ago.  The
/// answer asks for the first entry of the leader, and for what it has committed after that.
pub proof fn read_needs_a_confirmed_leader<C: RaftTypeConfig>(
    core: RaftCore<C>,
    now: Instant,
    option: LinearizerOption,
    tx: u64,
)
    requires
        core.read_outcome(now, option, tx) matches ReadOutcome::Reply(Ok(_)),
    ensures
        ({
            let leader = core.engine.leader->0;
            let age = option.max_age(core.timer_config.leader_lease);
            let answer = core.read_outcome(now, option, tx)->Reply_0->Ok_0;
            &&& core.engine.leader is Some
            &&& leader.transfer_to is None
            &&& leader.self_quorum || (leader.last_quorum_acked matches Some(t) && now.nanos < t.nanos
                + age.nanos)
            &&& answer.read_log_id.noop_log_id == leader.noop_log_id
            &&& answer.read_log_id.committed matches Some(c) ==> leader.noop_log_id.at_most(c)
                && core.engine.state.local_committed == Some(c)
        }),
{
}

/// A message that was sent under a vote that this node does not hold any more changes nothing.
pub proof fn stale_messages_are_ignored<C: RaftTypeConfig>(
    core: RaftCore<C>,
    new: RaftCore<C>,
    now: Instant,
    notify: Notification<C>,
)
    requires
        core.after_notification(now, notify, new),
        match notify {
            Notification::VoteResponse { candidate_vote, .. } => core.engine.candidate is None
                || core.engine.candidate->0.vote.leader_id != candidate_vote.leader_id,
            Notification::PreVoteResponse { candidate_vote, .. } => core.engine.pre_candidate
                is None || core.engine.pre_candidate->0.vote.leader_id
                != candidate_vote.leader_id,
            Notification::HigherVote { leader_vote, .. } => core.engine.leader is None
                || core.engine.leader->0.committed_vote.leader_id != leader_vote.leader_id,
            _ => false,
        },
    ensures
        core.notification_actions(now, notify) == Seq::<CoreAction<C>>::empty(),
        new == core,
{
    assert(core.notification_actions(now, notify) =~= Seq::empty());
}

/// A node that leads, or that is no voter, does not stand for election: neither a tick nor a command
/// makes it do so.
pub proof fn leaders_and_learners_do_not_elect<C: RaftTypeConfig>(
    core: RaftCore<C>,
    now: Instant,
    pre_vote: bool,
)
    requires
        (core.engine.leader is Some && core.engine.state.server_state == ServerState::Leader)
            || !core.is_voter_spec(),
    ensures
        core.tick_election_actions(now) == Seq::<CoreAction<C>>::empty(),
        core.external_actions(ExternalCommand::Elect { pre_vote }) == Seq::<CoreAction<C>>::empty(),
{
}

/// Every writer that waits is dealt with once when the log is applied, purged or truncated: those
/// that are taken out and those that go on waiting are together all that waited.
pub proof fn writers_are_dealt_with_once(queue: Seq<(u64, u64)>, index: u64, w: (u64, u64))
    ensures
        seqs::keep_if(queue, responders::is_upto(index)).len() + seqs::keep_if(
            queue,
            responders::is_after(index),
        ).len() == queue.len(),
        seqs::keep_if(queue, responders::is_since(index)).len() + seqs::keep_if(
            queue,
            responders::is_before(index),
        ).len() == queue.len(),
        queue.contains(w) ==> (seqs::keep_if(queue, responders::is_upto(index)).contains(w)
            <==> w.0 <= index),
        queue.contains(w) ==> (seqs::keep_if(queue, responders::is_since(index)).contains(w)
            <==> w.0 >= index),
{
    seqs::keep_if_splits(queue, responders::is_upto::<u64>(index), responders::is_after(index));
    seqs::keep_if_splits(queue, responders::is_since::<u64>(index), responders::is_before(index));
    seqs::keep_if_contains(queue, responders::is_upto(index), w);
    seqs::keep_if_contains(queue, responders::is_since(index), w);
}

/// The log of a node that hands over: a node stands for election on a transfer only if its log is
/// as up to date as that of the leader.
pub proof fn transfer_needs_an_up_to_date_log<C: RaftTypeConfig>(
    core: RaftCore<C>,
    from: Vote,
    to: u64,
    last_log_id: Option<LogId>,
)
    requires
        core.transfer_leader_actions(from, to, last_log_id).contains(
            CoreAction::<C>::ElectByTransfer,
        ),
    ensures
        core.id == to,
        core.engine.state.vote.vote == from,
        log_id::opt_at_most(last_log_id, core.engine.state.last_log_id),
{
}

} // verus!
