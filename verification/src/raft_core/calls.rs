//! What a call of each handler returns and leaves behind.

use std::collections::BTreeMap;
use vstd::prelude::*;
use crate::batch::Batch;
use crate::entry::Entry;
use crate::errors::{ChangeMembershipError, ClientWriteError, Fatal, InitializeError, StorageError};
use crate::log_id::{LeaderId, LogId};
use crate::membership::ChangeMembers;
use crate::message::{
    AppendEntriesRequest,
    LinearizerOption,
    TransferLeaderRequest,
    VoteRequest,
    VoteResponse,
};
use crate::raft_core::action::{Condition, CoreAction, Recorded, Response};
use crate::raft_core::commands::{
    ApplyPlan,
    Command,
    CommandOutcome,
    ReplicationSessionId,
    SmCommand,
    TransferRound,
    VoteReply,
    VoteRequestKind,
    VoteRound,
};
use crate::raft_core::commands;
use crate::raft_core::handlers::RaftCore;
use crate::raft_core::handlers;
use crate::raft_core::membership_handlers;
use crate::raft_core::notification::{Notification, SmResponse};
use crate::raft_core::raft_msg::{ExternalCommand, MembershipPayloads, RaftMsg};
use crate::raft_core::state::{Leader, Precondition, RaftState};
use crate::raft_core::state;
use crate::seqs;
use crate::time::Instant;
use crate::type_config::RaftTypeConfig;
use crate::vote::{IOId, Vote};

verus! {

/// A tick is answered with the election actions that are due, and then with the check of the
/// heartbeat timer.
pub proof fn tick_calls<C: RaftTypeConfig>(
    core: RaftCore<C>,
    now: Instant,
    r: Vec<CoreAction<C>>,
)
    ensures
        call_ensures(RaftCore::<C>::handle_tick_election, (&core, now), r) ==> r@
            == core.tick_election_actions(now),
        call_ensures(RaftCore::<C>::handle_tick, (&core, now), r) ==> r@.len() > 0 && r@.last() == (
        CoreAction::<C>::TickHeartbeat { now }) && r@.drop_last() == core.tick_election_actions(now),
{
    if call_ensures(RaftCore::<C>::handle_tick, (&core, now), r) {
        assert(r@.drop_last() =~= core.tick_election_actions(now));
    }
}

/// The heartbeat timer of a leader is checked against its own time.  A heartbeat that is due is sent
/// where heartbeats are enabled, and either way the next one falls due an interval after the given
/// time.  Nothing else changes, and nothing at all where none is due.
pub proof fn heartbeat_tick_calls<C: RaftTypeConfig>(
    core: &mut RaftCore<C>,
    now: Instant,
    later: Instant,
    r: Vec<CoreAction<C>>,
)
    requires
        call_ensures(RaftCore::<C>::tick_heartbeat, (core, now, later), r),
        later.nanos + old(core).config.heartbeat_interval * 1_000_000 <= u128::MAX,
    ensures
        ({
            let due = old(core).engine.leader matches Some(l) && l.next_heartbeat.nanos <= now.nanos;
            &&& !due ==> r@.len() == 0 && *final(core) == *old(core)
            &&& due ==> {
                &&& r@ == (if old(core).runtime_config.enable_heartbeat {
                    old(core).heartbeat_actions()
                } else {
                    Seq::empty()
                })
                &&& final(core).engine.leader matches Some(l)
                &&& l.next_heartbeat.nanos == later.nanos + old(core).config.heartbeat_interval
                    * 1_000_000
                &&& l.committed_vote == old(core).engine.leader->0.committed_vote
                &&& l.noop_log_id == old(core).engine.leader->0.noop_log_id
                &&& l.transfer_to == old(core).engine.leader->0.transfer_to
                &&& l.last_quorum_acked == old(core).engine.leader->0.last_quorum_acked
                &&& l.lease_valid == old(core).engine.leader->0.lease_valid
                &&& l.progress == old(core).engine.leader->0.progress
                &&& final(core).engine.state == old(core).engine.state
                &&& final(core).engine.candidate == old(core).engine.candidate
                &&& final(core).pending_reads == old(core).pending_reads
                &&& final(core).client_responders == old(core).client_responders
            }
        }),
{
}

/// The engine is asked for a vote as it was asked for here.  Its answer is sent once the vote that
/// this node holds is on disk, and a recorder learns of it.  An answer to a pre-vote is sent at once.
pub proof fn vote_calls<C: RaftTypeConfig>(
    core: RaftCore<C>,
    rpc: VoteRequest,
    resp: VoteResponse,
    tx: u64,
    r: Vec<CoreAction<C>>,
)
    ensures
        call_ensures(RaftCore::<C>::handle_vote_request, (&core, rpc, tx), r) ==> r@ == seq![
            CoreAction::<C>::HandleVoteRequest { rpc, tx },
        ],
        call_ensures(RaftCore::<C>::handle_pre_vote_request, (&core, rpc, tx), r) ==> r@ == seq![
            CoreAction::<C>::HandlePreVoteRequest { rpc, tx },
        ],
        call_ensures(RaftCore::<C>::vote_request_handled, (&core, resp, tx), r) ==> {
            let held = core.engine.state.vote.vote;
            &&& r@.len() == (if core.metrics_recorder is Some {
                2int
            } else {
                1
            })
            &&& core.metrics_recorder is Some ==> r@[0] == (CoreAction::<C>::Record {
                recorder: core.metrics_recorder->0,
                what: Recorded::Vote,
            })
            &&& r@.last() matches CoreAction::Respond {
                when: Some(Condition::IOFlushed { io_id }),
                resp: Response::Vote(sent),
                tx: answered,
            }
            &&& sent == resp
            &&& answered == tx
            &&& !held.committed ==> io_id == IOId::Vote(held)
            &&& held.committed ==> io_id == (IOId::Log { committed_vote: held, log_id: None })
        },
        call_ensures(RaftCore::<C>::pre_vote_request_handled, (&core, resp, tx), r) ==> r@ == seq![
            CoreAction::<C>::Respond { when: None, resp: Response::Vote(resp), tx },
        ],
{
}

/// Writes are handled as the laws on writes say, and the batch of appended entries is counted.
pub proof fn write_calls<C: RaftTypeConfig>(
    core: RaftCore<C>,
    payloads: Batch<C::Payload>,
    responders: Batch<Option<u64>>,
    expected: Option<LeaderId>,
    r: Vec<CoreAction<C>>,
)
    ensures
        call_ensures(RaftCore::<C>::write_entries, (&core, payloads, responders), r) ==> r@
            == core.write_actions(payloads, responders),
        call_ensures(RaftCore::<C>::handle_client_write, (&core, payloads, responders, expected), r)
            ==> r@ == core.client_write_actions(payloads, responders, expected),
{
}

/// The writers of appended entries join the queue, nobody else is touched, and a recorder learns how
/// many entries there are.
pub proof fn append_calls<C: RaftTypeConfig>(
    core: &mut RaftCore<C>,
    log_ids: Vec<LogId>,
    responders: Batch<Option<u64>>,
    r: Vec<CoreAction<C>>,
)
    requires
        call_ensures(RaftCore::<C>::entries_appended, (core, &log_ids, &responders), r),
        log_ids@.len() == responders@.len(),
    ensures
        final(core).client_responders@ == RaftCore::<C>::with_writers(
            old(core).client_responders@,
            log_ids@,
            responders@,
        ),
        final(core).engine == old(core).engine,
        final(core).pending_reads == old(core).pending_reads,
        final(core).replications == old(core).replications,
        old(core).metrics_recorder is None ==> r@.len() == 0,
        old(core).metrics_recorder matches Some(recorder) ==> r@ == seq![
            CoreAction::<C>::Record {
                recorder,
                what: Recorded::WriteBatch(log_ids@.len() as u64),
            },
        ],
{
}

/// Once the log is purged, the writers that still wait up to there are told where the leader is, in
/// their order, and leave; those behind go on waiting.  Then the purge counts.
pub proof fn purge_calls<C: RaftTypeConfig>(
    core: &mut RaftCore<C>,
    upto: LogId,
    r: Vec<CoreAction<C>>,
    w: (u64, u64),
)
    requires
        call_ensures(RaftCore::<C>::after_purge, (core, upto), r),
    ensures
        r@.len() > 0,
        r@.last() == (CoreAction::<C>::UpdatePurged { upto }),
        final(core).client_responders@.contains(w) <==> old(core).client_responders@.contains(w)
            && w.0 > upto.index,
        old(core).client_responders@.contains(w) && w.0 <= upto.index ==> r@.contains(
            CoreAction::<C>::FailWrite {
                tx: w.1,
                error: ClientWriteError::ForwardToLeader(old(core).current_forward()),
            },
        ),
        r@.len() - 1 + final(core).client_responders@.len() == old(core).client_responders@.len(),
        final(core).engine == old(core).engine,
        final(core).pending_reads == old(core).pending_reads,
{
    let q = old(core).client_responders@;
    let f = crate::raft_core::responders::is_upto::<u64>(upto.index);
    let g = crate::raft_core::responders::is_after::<u64>(upto.index);
    seqs::keep_if_contains(q, f, w);
    seqs::keep_if_contains(q, g, w);
    seqs::keep_if_splits(q, f, g);
    let told = handlers::fail_drained::<C>(seqs::keep_if(q, f), old(core).current_forward());
    if seqs::keep_if(q, f).contains(w) {
        let i = choose|i: int|
            0 <= i < seqs::keep_if(q, f).len() && seqs::keep_if(q, f)[i] == w;
        assert(r@[i] == told[i]);
    }
}

/// Once the log is truncated, the writers of the entries behind `after`, or of all entries, are told
/// where the leader is, and leave; those before go on waiting.
pub proof fn truncate_calls<C: RaftTypeConfig>(
    core: &mut RaftCore<C>,
    after: Option<LogId>,
    r: Vec<CoreAction<C>>,
    w: (u64, u64),
)
    requires
        call_ensures(RaftCore::<C>::after_truncate, (core, after), r),
        after matches Some(l) ==> l.index < u64::MAX,
    ensures
        final(core).client_responders@.contains(w) <==> old(core).client_responders@.contains(w) && (
        after matches Some(l) && w.0 <= l.index),
        old(core).client_responders@.contains(w) && (after matches Some(l) ==> w.0 > l.index)
            ==> r@.contains(
            CoreAction::<C>::FailWrite {
                tx: w.1,
                error: ClientWriteError::ForwardToLeader(old(core).current_forward()),
            },
        ),
        r@.len() + final(core).client_responders@.len() == old(core).client_responders@.len(),
        final(core).engine == old(core).engine,
        final(core).pending_reads == old(core).pending_reads,
{
    let q = old(core).client_responders@;
    let since = (match after {
        Some(l) => (l.index + 1) as u64,
        None => 0u64,
    });
    let f = crate::raft_core::responders::is_since::<u64>(since);
    let g = crate::raft_core::responders::is_before::<u64>(since);
    seqs::keep_if_contains(q, f, w);
    seqs::keep_if_contains(q, g, w);
    seqs::keep_if_splits(q, f, g);
    let told = handlers::fail_drained::<C>(seqs::keep_if(q, f), old(core).current_forward());
    if seqs::keep_if(q, f).contains(w) {
        let i = choose|i: int|
            0 <= i < seqs::keep_if(q, f).len() && seqs::keep_if(q, f)[i] == w;
        assert(r@[i] == told[i]);
    }
}

/// Entries are applied from the first to the last, both of them counted.  The writers up to the last
/// go along, in their order, and leave the queue; those behind go on waiting.
pub proof fn apply_calls<C: RaftTypeConfig>(
    core: &mut RaftCore<C>,
    first: LogId,
    last: LogId,
    r: (ApplyPlan, Vec<CoreAction<C>>),
    w: (u64, u64),
)
    requires
        call_ensures(RaftCore::<C>::apply_to_state_machine, (core, first, last), r),
        first.index <= last.index < u64::MAX,
    ensures
        r.0.entry_count == last.index - first.index + 1,
        r.0.responders@.contains(w) <==> old(core).client_responders@.contains(w) && w.0
            <= last.index,
        final(core).client_responders@.contains(w) <==> old(core).client_responders@.contains(w)
            && w.0 > last.index,
        r.0.responders@.len() + final(core).client_responders@.len() == old(core).client_responders@.len(),
        old(core).metrics_recorder is None ==> r.1@.len() == 0,
        old(core).metrics_recorder matches Some(recorder) ==> r.1@ == seq![
            CoreAction::<C>::Record {
                recorder,
                what: Recorded::ApplyBatch((last.index - first.index + 1) as u64),
            },
        ],
        final(core).engine == old(core).engine,
        final(core).pending_reads == old(core).pending_reads,
{
    let q = old(core).client_responders@;
    let f = crate::raft_core::responders::is_upto::<u64>(last.index);
    let g = crate::raft_core::responders::is_after::<u64>(last.index);
    seqs::keep_if_contains(q, f, w);
    seqs::keep_if_contains(q, g, w);
    seqs::keep_if_splits(q, f, g);
}

/// Reads are handled as the laws on reads say.
pub proof fn read_calls<C: RaftTypeConfig>(
    core: &mut RaftCore<C>,
    now: Instant,
    option: LinearizerOption,
    tx: u64,
    r: Vec<CoreAction<C>>,
)
    ensures
        call_ensures(RaftCore::<C>::handle_get_linearizer, (core, now, option, tx), r) ==> old(core).after_read(now, option, tx, *final(core), r@),
        call_ensures(RaftCore::<C>::process_pending_reads, (core, now), r) ==> r@ == old(core).pending_read_actions(now) && final(core).pending_reads@ == old(core).reads_left(now)
            && final(core).engine == old(core).engine && final(core).client_responders == old(core).client_responders,
{
}

/// After a round, the routine actions come first and then the check of the waiting reads.
pub proof fn routine_calls<C: RaftTypeConfig>(
    core: &mut RaftCore<C>,
    at: Option<LogId>,
    now: Instant,
    r: Vec<CoreAction<C>>,
)
    requires
        call_ensures(RaftCore::<C>::trigger_routine_actions, (core, at, now), r),
    ensures
        r@ == old(core).routine_prefix(at) + old(core).pending_read_actions(now),
        final(core).pending_reads@ == old(core).reads_left(now),
        final(core).engine == old(core).engine,
{
}

/// A snapshot counts as tried exactly if its build was queued and the entry is known at which it was
/// tried; else the entry at which one was tried before stays.
pub proof fn snapshot_calls<C: RaftTypeConfig>(
    core: &mut RaftCore<C>,
    at: Option<LogId>,
    queued: bool,
    r: (),
)
    requires
        call_ensures(RaftCore::<C>::snapshot_triggered, (core, at, queued), r),
    ensures
        queued && at is Some ==> final(core).snapshot_tried_at == at,
        !queued || at is None ==> final(core).snapshot_tried_at == old(core).snapshot_tried_at,
        final(core).engine == old(core).engine,
        final(core).pending_reads == old(core).pending_reads,
        final(core).client_responders == old(core).client_responders,
        final(core).replications == old(core).replications,
{
}

/// Memberships are appended, changed and initialized as the laws on writes say.
pub proof fn membership_calls<C: RaftTypeConfig>(
    core: RaftCore<C>,
    payload: C::Payload,
    changes: ChangeMembers<C::Node>,
    retain: bool,
    preconditions: Vec<Precondition>,
    payloads: MembershipPayloads<C>,
    validation: Result<(), ChangeMembershipError>,
    members: BTreeMap<u64, C::Node>,
    tx: u64,
    r: Vec<CoreAction<C>>,
)
    ensures
        call_ensures(
            RaftCore::<C>::append_membership,
            (&core, payload, preconditions, validation, tx),
            r,
        ) ==> r@ == core.append_membership_actions(payload, preconditions@, validation, tx),
        call_ensures(
            RaftCore::<C>::change_membership,
            (&core, changes, retain, preconditions, payloads, tx),
            r,
        ) ==> core.change_membership_actions(changes, retain, preconditions@, payloads, tx, r@),
        call_ensures(RaftCore::<C>::handle_initialize, (&core, members, tx), r)
            ==> core.initialize_actions(members@, tx, r@),
{
}

/// The first entry of a leader must be committed, and the conditions of a caller must hold.
pub proof fn check_calls<C: RaftTypeConfig>(
    st: RaftState<C::Node>,
    leader: Leader,
    preconditions: Vec<Precondition>,
    judged: Result<(), ChangeMembershipError>,
    checked: Result<(), crate::errors::PreconditionFailed>,
)
    ensures
        call_ensures(
            membership_handlers::ensure_leader_log_committed::<C::Node>,
            (&st, &leader),
            judged,
        ) ==> {
            &&& judged is Ok <==> (st.cluster_committed matches Some(c)
                && leader.noop_log_id.at_most(c))
            &&& judged matches Err(e) ==> e == (ChangeMembershipError::UncommittedLeaderLog {
                committed: st.cluster_committed,
                leader_log_id: leader.noop_log_id,
            })
        },
        call_ensures(
            RaftState::<C::Node>::ensure_preconditions_satisfied,
            (&st, &preconditions),
            checked,
        ) ==> checked == state::check_all(
            preconditions@,
            st.membership_state.effective.log_id,
        ),
{
}

/// A failed initialization is answered at once.  A successful one is answered once what was accepted
/// for it is on disk, and then this node stands for election.
pub proof fn initialized_calls<C: RaftTypeConfig>(
    core: RaftCore<C>,
    result: Result<(), InitializeError>,
    tx: u64,
    r: Vec<CoreAction<C>>,
)
    requires
        call_ensures(RaftCore::<C>::initialized, (&core, result, tx), r),
    ensures
        result is Err ==> r@ == seq![
            CoreAction::<C>::Respond { when: None, resp: Response::Initialize(result), tx },
        ],
        result is Ok ==> {
            &&& r@.len() == 2
            &&& r@[1] == CoreAction::<C>::Elect
            &&& r@[0] matches CoreAction::Respond { when, resp, tx: answered }
            &&& answered == tx
            &&& resp == Response::Initialize(result)
            &&& core.engine.state.log_progress.accepted is None ==> when is None
            &&& core.engine.state.log_progress.accepted matches Some(accepted) ==> when == Some(
                Condition::IOFlushed { io_id: accepted },
            )
        },
{
}

/// Messages, notifications and commands from outside are handled as their laws say.
pub proof fn dispatch_calls<C: RaftTypeConfig>(
    core: &mut RaftCore<C>,
    now: Instant,
    msg: RaftMsg<C>,
    validation: Result<(), ChangeMembershipError>,
    notify: Notification<C>,
    cmd: ExternalCommand,
    r: Vec<CoreAction<C>>,
    done: Result<Vec<CoreAction<C>>, Fatal<C>>,
)
    ensures
        call_ensures(RaftCore::<C>::handle_api_msg, (core, now, msg, validation), r) ==> old(core).after_api_msg(now, msg, validation, *final(core), r@),
        call_ensures(RaftCore::<C>::handle_external_command, (core, cmd), r) ==> r@ == old(core).external_actions(cmd) && final(core).metrics_recorder == old(core).recorder_after(cmd)
            && final(core).engine == old(core).engine,
        call_ensures(RaftCore::<C>::handle_notification, (core, now, notify), done) ==> {
            &&& old(core).after_notification(now, notify, *final(core))
            &&& done matches Ok(actions) ==> actions@ == old(core).notification_actions(now, notify)
            &&& done matches Err(e) ==> RaftCore::<C>::notification_error(notify) == Some(e)
            &&& done is Err <==> RaftCore::<C>::notification_error(notify) is Some
        },
{
}

/// The pieces of what is dispatched: a write on disk, the state machine, a transfer of the leadership
/// and entries of another node.
pub proof fn piece_calls<C: RaftTypeConfig>(
    core: RaftCore<C>,
    io_id: IOId,
    from: Vote,
    to: u64,
    last_log_id: Option<LogId>,
    rpc: AppendEntriesRequest<C::Payload>,
    tx: u64,
    r: Vec<CoreAction<C>>,
    result: Result<SmResponse<C::Node>, StorageError<C>>,
    done: Result<Vec<CoreAction<C>>, Fatal<C>>,
)
    ensures
        call_ensures(RaftCore::<C>::handle_local_io, (&core, io_id), r) ==> r@
            == core.local_io_actions(io_id),
        call_ensures(RaftCore::<C>::handle_transfer_leader, (&core, from, to, last_log_id), r) ==> r@
            == core.transfer_leader_actions(from, to, last_log_id),
        call_ensures(RaftCore::<C>::handle_append_entries_request, (&core, rpc, tx), r) ==> r@
            == core.append_entries_actions(rpc, tx),
        call_ensures(RaftCore::<C>::handle_state_machine_result, (&core, result), done) ==> {
            &&& result matches Ok(res) ==> (done matches Ok(actions) && actions@ == core.sm_actions(
                res,
            ))
            &&& result matches Err(e) ==> done == Err::<Vec<CoreAction<C>>, Fatal<C>>(
                Fatal::StorageError(e),
            )
        },
{
}

/// A command whose condition is not met comes back unchanged and changes nothing; one that has none,
/// or whose condition is met, is run.
pub proof fn command_calls<C: RaftTypeConfig>(
    core: &mut RaftCore<C>,
    now: Instant,
    cmd: Command<C>,
    condition: Option<Condition>,
    r: CommandOutcome<C>,
)
    requires
        call_ensures(RaftCore::<C>::run_command, (core, now, cmd, condition), r),
    ensures
        condition is None ==> (r matches CommandOutcome::Run(actions) && old(core).after_command(
            now,
            cmd,
            *final(core),
            actions@,
        )),
        condition matches Some(c) ==> {
            &&& c.met(old(core).engine.state) ==> (r matches CommandOutcome::Run(actions) && old(core).after_command(now, cmd, *final(core), actions@))
            &&& !c.met(old(core).engine.state) ==> (r matches CommandOutcome::Postponed(back) && back
                == cmd && *final(core) == *old(core))
        },
{
}

/// The commands one by one: heartbeats, entries, votes, the state machine and the replications.
pub proof fn run_calls<C: RaftTypeConfig>(
    core: RaftCore<C>,
    now: Instant,
    session_id: ReplicationSessionId,
    bypass: bool,
    vote: Vote,
    entries: Vec<Entry<C::Payload>>,
    command: SmCommand,
    r: Vec<CoreAction<C>>,
)
    ensures
        call_ensures(RaftCore::<C>::broadcast_heartbeat, (&core, now, session_id, bypass), r)
            ==> r@ == core.broadcast_heartbeat_actions(now, session_id, bypass),
        call_ensures(RaftCore::<C>::run_append_entries, (&core, vote, entries), r) ==> r@
            == core.append_actions(vote, entries),
        call_ensures(RaftCore::<C>::run_save_vote, (&core, vote), r) ==> r@
            == core.save_vote_actions(vote),
        call_ensures(RaftCore::<C>::run_state_machine, (&core, command), r) ==> r@ == RaftCore::<
            C,
        >::state_machine_actions(command),
{
}

/// Replications are closed, or made anew, as their laws say, and the core knows of those that there
/// are then.
pub proof fn replication_calls<C: RaftTypeConfig>(
    core: &mut RaftCore<C>,
    leader_vote: Vote,
    targets: Vec<crate::raft_core::heartbeat::TargetProgress>,
    close_old: bool,
    r: Vec<CoreAction<C>>,
)
    ensures
        call_ensures(
            RaftCore::<C>::run_rebuild_replication_streams,
            (core, leader_vote, &targets, close_old),
            r,
        ) ==> old(core).rebuild_actions(leader_vote, targets@, close_old, r@) && final(core).replications@ == commands::streams_after::<C>(
            old(core).replications@,
            leader_vote,
            targets@,
            close_old,
        ).1 && final(core).engine == old(core).engine,
        call_ensures(RaftCore::<C>::run_close_replication_streams, (core,), r) ==> old(core).close_stream_actions(r@) && final(core).replications@.dom() == Set::<u64>::empty() && final(core).engine == old(core).engine,
{
}

/// A request for votes goes to every other voter, as it is, and its answers are waited for as long as
/// the least election timeout; so does the message of a leader that hands over.
pub proof fn round_calls<C: RaftTypeConfig>(
    core: RaftCore<C>,
    vote_req: VoteRequest,
    kind: VoteRequestKind,
    req: TransferLeaderRequest,
    votes: VoteRound,
    transfer: TransferRound,
)
    ensures
        call_ensures(
            RaftCore::<C>::spawn_parallel_vote_requests,
            (&core, &vote_req, kind),
            votes,
        ) ==> {
            &&& core.other_voters(votes.targets@)
            &&& votes.request == vote_req
            &&& votes.kind == kind
            &&& votes.ttl.nanos == core.config.election_timeout_min * 1_000_000
        },
        call_ensures(RaftCore::<C>::broadcast_transfer_leader, (&core, req), transfer) ==> {
            &&& core.other_voters(transfer.targets@)
            &&& transfer.request == req
            &&& transfer.ttl.nanos == core.config.election_timeout_min * 1_000_000
        },
{
}

/// Only an answer counts: it is told with the node that gave it and the vote that it was asked for, as
/// an answer to a vote or to a pre-vote.  A node that did not answer grants nothing.
pub proof fn reply_calls<C: RaftTypeConfig>(
    round: VoteRound,
    target: u64,
    reply: VoteReply,
    r: Option<Notification<C>>,
)
    requires
        call_ensures(VoteRound::on_reply::<C>, (&round, target, reply), r),
    ensures
        r is Some <==> reply is Answer,
        reply matches VoteReply::Answer(answer) ==> match round.kind {
            VoteRequestKind::Vote => r matches Some(
                Notification::VoteResponse { target: t, resp, candidate_vote },
            ) && t == target && resp == answer && candidate_vote.leader_id
                == round.request.vote.leader_id && !candidate_vote.committed,
            VoteRequestKind::PreVote => r matches Some(
                Notification::PreVoteResponse { target: t, resp, candidate_vote },
            ) && t == target && resp == answer && candidate_vote.leader_id
                == round.request.vote.leader_id && !candidate_vote.committed,
        },
{
}

/// Who leads, as far as a committed vote tells, and when a quorum last acknowledged this leader.
pub proof fn leader_calls<C: RaftTypeConfig>(
    core: RaftCore<C>,
    id: Option<u64>,
    leader: Option<u64>,
    acked: Option<Instant>,
    node: Option<C::Node>,
)
    ensures
        call_ensures(RaftCore::<C>::current_leader, (&core,), leader) ==> leader
            == core.leader_id_spec(),
        call_ensures(RaftCore::<C>::get_leader_node, (&core, id), node) ==> node
            == core.leader_node_spec(id),
        call_ensures(RaftCore::<C>::last_quorum_acked_time, (&core,), acked) ==> (
        core.engine.leader is None ==> acked is None) && (core.engine.leader matches Some(l) ==> acked
            == l.last_quorum_acked),
{
}

} // verus!
