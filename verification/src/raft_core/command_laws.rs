//! What the commands, messages and notifications of a node come to.

use vstd::prelude::*;
use crate::entry::{Entry, RaftPayload};
use crate::errors::{ChangeMembershipError, Fatal, LinearizableReadError, StorageError};
use crate::log_id::LogId;
use crate::message::{AppendEntriesRequest, TransferLeaderRequest, VoteResponse};
use crate::raft_core::action::{CoreAction, Recorded};
use crate::raft_core::commands::{Command, SmCommand};
use crate::raft_core::commands;
use crate::raft_core::election_laws;
use crate::raft_core::handlers::{RaftCore, ReplicationHandle};
use crate::raft_core::heartbeat::{HeartbeatEvent, TargetProgress};
use crate::raft_core::notification::{Notification, SmResponse};
use crate::raft_core::raft_msg::{ExternalCommand, RaftMsg};
use crate::raft_core::responders;
use crate::seqs;
use crate::sets;
use crate::time::Instant;
use crate::type_config::RaftTypeConfig;
use crate::vote::{IOId, Vote};

verus! {

/// A request to the other voters goes to every node that stands in a voter set, but not to this
/// node, to each once and in the order of their ids.
pub proof fn requests_go_to_all_other_voters<C: RaftTypeConfig>(
    core: RaftCore<C>,
    targets: Seq<u64>,
    id: u64,
)
    requires
        core.other_voters(targets),
    ensures
        targets.contains(id) <==> election_laws::votes(core, id) && id != core.id,
        forall|i: int, j: int| 0 <= i < j < targets.len() ==> targets[i] < targets[j],
{
    let m = core.engine.state.membership_state.effective.membership;
    let ids = choose|ids: Seq<u64>| #[trigger]
        sets::lists(ids, m@.voters()) && targets == seqs::keep_if(ids, commands::is_other(core.id));
    sets::listed(ids, m@.voters(), id);
    seqs::keep_if_contains(ids, commands::is_other(core.id), id);
    assert(m@.configs.len() == m.configs@.len());
    if election_laws::votes(core, id) {
        let i = choose|i: int|
            0 <= i < m.configs@.len() && (#[trigger] m.configs@[i])@.contains(id);
        assert(m@.configs[i].contains(id));
    }
    if m@.voters().contains(id) {
        let i = choose|i: int| 0 <= i < m@.configs.len() && (#[trigger] m@.configs[i]).contains(id);
        assert(m.configs@[i]@.contains(id));
    }
    assert(ids.contains(id) <==> ids.to_set().contains(id));
    assert forall|i: int, j: int| 0 <= i < j < targets.len() implies targets[i] < targets[j] by {
        lemma_increasing(ids, commands::is_other(core.id), i, j);
    }
}

proof fn lemma_increasing(ids: Seq<u64>, f: spec_fn(u64) -> bool, i: int, j: int)
    requires
        forall|i: int, j: int| 0 <= i < j < ids.len() ==> ids[i] < ids[j],
        0 <= i < j < seqs::keep_if(ids, f).len(),
    ensures
        seqs::keep_if(ids, f)[i] < seqs::keep_if(ids, f)[j],
    decreases ids.len(),
{
    let rest = ids.drop_last();
    let kept = seqs::keep_if(rest, f);
    assert forall|i: int, j: int| 0 <= i < j < rest.len() implies rest[i] < rest[j] by {
        assert(rest[i] == ids[i] && rest[j] == ids[j]);
    }
    if j < kept.len() {
        lemma_increasing(rest, f, i, j);
    } else {
        let x = kept[i];
        assert(kept.contains(x));
        seqs::keep_if_contains(rest, f, x);
        let k = choose|k: int| 0 <= k < rest.len() && rest[k] == x;
        assert(ids[k] == x);
    }
}

/// A leader sends a heartbeat to each node that it replicates to but itself, where the least
/// interval is heeded only to those that are due.  Each carries the time, the last entry that its
/// target is known to hold, and how far the cluster has committed.
pub proof fn heartbeats_go_to_all_targets<C: RaftTypeConfig>(
    core: RaftCore<C>,
    now: Instant,
    bypass: bool,
    k: int,
)
    requires
        core.engine.leader matches Some(l) && 0 <= k < l.progress@.len(),
        core.engine.leader->0.progress@[k].id != core.id,
        bypass || core.engine.leader->0.progress@[k].heartbeat_due,
    ensures
        ({
            let t = core.engine.leader->0.progress@[k];
            core.broadcast_heartbeat_actions(
                now,
                commands::ReplicationSessionId {
                    leader_vote: core.engine.leader->0.committed_vote,
                    membership_log_id: core.engine.state.membership_state.effective.log_id,
                },
                bypass,
            ).contains(
                CoreAction::<C>::SendHeartbeatTo {
                    target: t.id,
                    event: HeartbeatEvent {
                        time: now,
                        matching: t.matching,
                        cluster_committed: core.engine.state.cluster_committed,
                    },
                },
            )
        }),
{
    let p = core.engine.leader->0.progress@;
    let f = commands::is_heartbeat_target(core.id, !bypass);
    let kept = seqs::keep_if(p, f);
    assert(p.contains(p[k]));
    seqs::keep_if_contains(p, f, p[k]);
    let i = choose|i: int| 0 <= i < kept.len() && kept[i] == p[k];
    let all = commands::heartbeats_to::<C>(kept, now, core.engine.state.cluster_committed);
    assert(all[i] == (CoreAction::<C>::SendHeartbeatTo {
        target: p[k].id,
        event: HeartbeatEvent {
            time: now,
            matching: p[k].matching,
            cluster_committed: core.engine.state.cluster_committed,
        },
    }));
}

/// Every heartbeat that is sent has such a target, and none is sent by a node that does not lead,
/// or for another leader or another membership than the present ones.
pub proof fn no_other_heartbeat_is_sent<C: RaftTypeConfig>(
    core: RaftCore<C>,
    now: Instant,
    session_id: commands::ReplicationSessionId,
    bypass: bool,
    i: int,
)
    requires
        0 <= i < core.broadcast_heartbeat_actions(now, session_id, bypass).len(),
    ensures
        core.engine.leader matches Some(l) && l.committed_vote == session_id.leader_vote,
        core.engine.state.membership_state.effective.log_id == session_id.membership_log_id,
        exists|k: int|
            {
                let t = core.engine.leader->0.progress@[k];
                &&& 0 <= k < core.engine.leader->0.progress@.len()
                &&& (#[trigger] core.engine.leader->0.progress@[k]).id != core.id
                &&& bypass || t.heartbeat_due
                &&& core.broadcast_heartbeat_actions(now, session_id, bypass)[i] == (
                CoreAction::<C>::SendHeartbeatTo {
                    target: t.id,
                    event: HeartbeatEvent {
                        time: now,
                        matching: t.matching,
                        cluster_committed: core.engine.state.cluster_committed,
                    },
                })
            },
{
    let p = core.engine.leader->0.progress@;
    let f = commands::is_heartbeat_target(core.id, !bypass);
    seqs::kept_items_keep_their_order(p, f, -1, i);
    let k = choose|k: int|
        0 <= k < p.len() && f(#[trigger] p[k]) && p[k] == seqs::keep_if(p, f)[i] && seqs::keep_if(
            p.take(k),
            f,
        ).len() == i;
    assert(p[k].id != core.id);
}

/// Entries are accepted and submitted under the vote of their leader, up to the last of them, before
/// they are handed to the log store; a recorder learns how many they are.
pub proof fn entries_are_submitted_before_they_are_written<C: RaftTypeConfig>(
    core: RaftCore<C>,
    committed_vote: Vote,
    entries: Vec<Entry<C::Payload>>,
)
    requires
        entries@.len() > 0,
    ensures
        ({
            let actions = core.append_actions(committed_vote, entries);
            let n = actions.len() as int;
            let io_id = IOId::Log {
                committed_vote,
                log_id: Some(entries@[entries@.len() - 1].log_id),
            };
            &&& n == (if core.metrics_recorder is Some {
                4int
            } else {
                3
            })
            &&& core.metrics_recorder is Some ==> actions[0] == (CoreAction::<C>::Record {
                recorder: core.metrics_recorder->0,
                what: Recorded::AppendBatch(entries@.len() as u64),
            })
            &&& actions[n - 3] == (CoreAction::<C>::BroadcastAccepted { io_id })
            &&& actions[n - 2] == (CoreAction::<C>::SubmitLog { io_id })
            &&& actions[n - 1] == (CoreAction::<C>::AppendLog { entries, io_id })
        }),
{
}

/// A vote is accepted and submitted before it is saved, and counts as on disk after.  A vote that no
/// quorum has granted is then granted by this node itself; a committed one is not voted on again.
pub proof fn saved_votes_are_granted_here<C: RaftTypeConfig>(core: RaftCore<C>, vote: Vote)
    ensures
        ({
            let actions = core.save_vote_actions(vote);
            let io_id = if vote.committed {
                IOId::Log { committed_vote: vote, log_id: None }
            } else {
                IOId::Vote(vote)
            };
            &&& actions.len() == (if vote.committed {
                4int
            } else {
                5
            })
            &&& actions[0] == (CoreAction::<C>::BroadcastAccepted { io_id })
            &&& actions[1] == (CoreAction::<C>::SubmitLog { io_id })
            &&& actions[2] == (CoreAction::<C>::SaveVote { vote })
            &&& actions[3] == (CoreAction::<C>::Notify {
                notification: Notification::LocalIO { io_id },
            })
            &&& !vote.committed ==> (actions[4] matches CoreAction::Notify {
                notification: Notification::VoteResponse { target, resp, candidate_vote },
            } && target == core.id && candidate_vote == vote && resp.vote_granted && resp.vote
                == vote && resp.last_log_id is None)
        }),
{
}

/// Whether a target is named.
pub open spec fn names(targets: Seq<TargetProgress>, id: u64) -> bool {
    exists|k: int| 0 <= k < targets.len() && (#[trigger] targets[k]).target == id
}

/// Whether no target is named twice.
pub open spec fn distinct(targets: Seq<TargetProgress>) -> bool {
    forall|i: int, j: int|
        0 <= i < j < targets.len() ==> (#[trigger] targets[i]).target != (
        #[trigger] targets[j]).target
}

/// A replication that is there goes on as it is where the old ones are not closed.  Every other
/// target gets a new one on the stream that is given for it, with no snapshot under way.
pub proof fn old_replications_are_kept<C: RaftTypeConfig>(
    old: Map<u64, ReplicationHandle>,
    leader_vote: Vote,
    targets: Seq<TargetProgress>,
    close_old: bool,
    k: int,
)
    requires
        distinct(targets),
        0 <= k < targets.len(),
    ensures
        ({
            let t = targets[k];
            let (left, new, actions) = commands::streams_after::<C>(
                old,
                leader_vote,
                targets,
                close_old,
            );
            let spawn = CoreAction::<C>::SpawnReplication {
                target: t.target,
                stream_id: t.stream_id,
                leader_vote,
            };
            &&& new.contains_key(t.target)
            &&& old.contains_key(t.target) && !close_old ==> new[t.target] == old[t.target]
            &&& !old.contains_key(t.target) || close_old ==> new[t.target].stream_id == t.stream_id
                && !new[t.target].transmitting && actions.contains(spawn)
            &&& old.contains_key(t.target) && close_old ==> actions.contains(
                CoreAction::<C>::CloseReplication { target: t.target },
            )
        }),
    decreases targets.len(),
{
    let rest = targets.drop_last();
    let last = targets.last();
    let n = targets.len() - 1;
    let (left, new, actions) = commands::streams_after::<C>(old, leader_vote, rest, close_old);
    let (left2, new2, actions2) = commands::streams_after::<C>(
        old,
        leader_vote,
        targets,
        close_old,
    );
    commands::streams_are_targets::<C>(old, leader_vote, rest, close_old, last.target);
    assert(targets[n] == last);
    assert forall|i: int, j: int| 0 <= i < j < rest.len() implies (#[trigger] rest[i]).target != (
    #[trigger] rest[j]).target by {
        assert(targets[i] == rest[i] && targets[j] == rest[j]);
    }
    assert(!names(rest, last.target)) by {
        if names(rest, last.target) {
            let i = choose|i: int| 0 <= i < rest.len() && (#[trigger] rest[i]).target
                == last.target;
            assert(targets[i].target == targets[n].target);
        }
    }
    assert(left.contains_key(last.target) <==> old.contains_key(last.target));
    lemma_left_unchanged::<C>(old, leader_vote, rest, close_old, last.target);
    let spawn = CoreAction::<C>::SpawnReplication {
        target: targets[k].target,
        stream_id: targets[k].stream_id,
        leader_vote,
    };
    let close = CoreAction::<C>::CloseReplication { target: targets[k].target };
    if k < n {
        assert(rest[k] == targets[k]);
        old_replications_are_kept::<C>(old, leader_vote, rest, close_old, k);
        assert(targets[k].target != targets[n].target);
        assert forall|a: CoreAction<C>| actions.contains(a) implies actions2.contains(a) by {
            let i = choose|i: int| 0 <= i < actions.len() && actions[i] == a;
            assert(actions2[i] == a);
        }
    } else {
        if !old.contains_key(last.target) {
            assert(actions2[actions.len() as int] == spawn);
        } else if close_old {
            assert(actions2[actions.len() as int] == close);
            assert(actions2[(actions.len() + 1) as int] == spawn);
        }
    }
}

proof fn lemma_left_unchanged<C: RaftTypeConfig>(
    old: Map<u64, ReplicationHandle>,
    leader_vote: Vote,
    targets: Seq<TargetProgress>,
    close_old: bool,
    id: u64,
)
    ensures
        ({
            let left = commands::streams_after::<C>(old, leader_vote, targets, close_old).0;
            left.contains_key(id) ==> old.contains_key(id) && left[id] == old[id]
        }),
    decreases targets.len(),
{
    if targets.len() > 0 {
        lemma_left_unchanged::<C>(old, leader_vote, targets.drop_last(), close_old, id);
    }
}

/// Making the replications anew starts or closes nothing but what it must: a replication is started
/// only for a target that has none or whose old one is closed, and closed only where it was there.
pub proof fn only_targets_are_started<C: RaftTypeConfig>(
    old: Map<u64, ReplicationHandle>,
    leader_vote: Vote,
    targets: Seq<TargetProgress>,
    close_old: bool,
    i: int,
)
    requires
        distinct(targets),
        0 <= i < commands::streams_after::<C>(old, leader_vote, targets, close_old).2.len(),
    ensures
        match commands::streams_after::<C>(old, leader_vote, targets, close_old).2[i] {
            CoreAction::SpawnReplication { target, stream_id, leader_vote: v } => {
                &&& v == leader_vote
                &&& !old.contains_key(target) || close_old
                &&& exists|k: int|
                    0 <= k < targets.len() && (#[trigger] targets[k]).target == target
                        && targets[k].stream_id == stream_id
            },
            CoreAction::CloseReplication { target } => {
                &&& old.contains_key(target)
                &&& close_old
                &&& names(targets, target)
            },
            _ => false,
        },
    decreases targets.len(),
{
    let rest = targets.drop_last();
    let last = targets.last();
    let n = targets.len() - 1;
    let (left, new, actions) = commands::streams_after::<C>(old, leader_vote, rest, close_old);
    commands::streams_are_targets::<C>(old, leader_vote, rest, close_old, last.target);
    assert(targets[n] == last);
    assert forall|i: int, j: int| 0 <= i < j < rest.len() implies (#[trigger] rest[i]).target != (
    #[trigger] rest[j]).target by {
        assert(targets[i] == rest[i] && targets[j] == rest[j]);
    }
    if i < actions.len() {
        only_targets_are_started::<C>(old, leader_vote, rest, close_old, i);
        assert forall|k: int| 0 <= k < rest.len() implies #[trigger] rest[k] == targets[k] by {}
        match actions[i] {
            CoreAction::SpawnReplication { target, stream_id, .. } => {
                let k = choose|k: int|
                    0 <= k < rest.len() && (#[trigger] rest[k]).target == target
                        && rest[k].stream_id == stream_id;
                assert(targets[k].target == target);
            },
            CoreAction::CloseReplication { target } => {
                let k = choose|k: int| 0 <= k < rest.len() && (#[trigger] rest[k]).target == target;
                assert(targets[k].target == target);
            },
            _ => {},
        }
    } else {
        assert(!names(rest, last.target)) by {
            if names(rest, last.target) {
                let j = choose|j: int| 0 <= j < rest.len() && (#[trigger] rest[j]).target
                    == last.target;
                assert(targets[j].target == targets[n].target);
            }
        }
        assert(targets[n].target == last.target);
    }
}

/// Making the replications anew first has the heartbeat workers made anew, and last closes the
/// replications to nodes that are no targets any more.
pub proof fn abandoned_replications_are_closed<C: RaftTypeConfig>(
    core: RaftCore<C>,
    leader_vote: Vote,
    targets: Seq<TargetProgress>,
    close_old: bool,
    actions: Seq<CoreAction<C>>,
    id: u64,
)
    requires
        core.rebuild_actions(leader_vote, targets, close_old, actions),
        distinct(targets),
    ensures
        actions.len() > 0,
        actions[0] == (CoreAction::<C>::SpawnHeartbeatWorkers { leader_vote, close_old }),
        actions.contains(CoreAction::<C>::CloseReplication { target: id })
            <==> core.replications@.contains_key(id) && (close_old || !names(targets, id)),
{
    let (left, new, done) = commands::streams_after::<C>(
        core.replications@,
        leader_vote,
        targets,
        close_old,
    );
    let ids = choose|ids: Seq<u64>| #[trigger]
        sets::lists(ids, left.dom()) && actions =~= seq![
            CoreAction::<C>::SpawnHeartbeatWorkers { leader_vote, close_old },
        ] + done + commands::closes::<C>(ids);
    let close = CoreAction::<C>::CloseReplication { target: id };
    let head = seq![CoreAction::<C>::SpawnHeartbeatWorkers { leader_vote, close_old }];
    let tail = commands::closes::<C>(ids);
    sets::listed(ids, left.dom(), id);
    commands::streams_are_targets::<C>(core.replications@, leader_vote, targets, close_old, id);
    if actions.contains(close) {
        let i = choose|i: int| 0 <= i < actions.len() && actions[i] == close;
        if 1 <= i < 1 + done.len() {
            assert(done[i - 1] == close);
            only_targets_are_started::<C>(
                core.replications@,
                leader_vote,
                targets,
                close_old,
                i - 1,
            );
        } else if i >= 1 + done.len() {
            assert(tail[i - 1 - done.len()] == close);
            assert(ids[i - 1 - done.len()] == id);
            assert(ids.contains(id));
        }
    }
    if core.replications@.contains_key(id) && names(targets, id) && close_old {
        let k = choose|k: int| 0 <= k < targets.len() && (#[trigger] targets[k]).target == id;
        old_replications_are_kept::<C>(core.replications@, leader_vote, targets, close_old, k);
        let i = choose|i: int| 0 <= i < done.len() && done[i] == close;
        assert(actions[1 + i] == close);
    }
    if core.replications@.contains_key(id) && !names(targets, id) {
        assert(left.contains_key(id));
        let i = choose|i: int| 0 <= i < ids.len() && #[trigger] ids[i] == id;
        assert(tail[i] == close);
        assert(actions[(1 + done.len() + i) as int] == close);
    }
}

/// A node that stops to lead closes its heartbeat workers, then every replication that it has, and
/// nothing else.
pub proof fn all_replications_are_closed<C: RaftTypeConfig>(
    core: RaftCore<C>,
    actions: Seq<CoreAction<C>>,
    id: u64,
    i: int,
)
    requires
        core.close_stream_actions(actions),
    ensures
        actions.len() > 0,
        actions[0] == CoreAction::<C>::CloseHeartbeatWorkers,
        core.replications@.contains_key(id) ==> actions.contains(
            CoreAction::<C>::CloseReplication { target: id },
        ),
        0 < i < actions.len() ==> (actions[i] matches CoreAction::CloseReplication { target }
            && core.replications@.contains_key(target)),
{
    let ids = choose|ids: Seq<u64>| #[trigger]
        sets::lists(ids, core.replications@.dom()) && actions =~= seq![
            CoreAction::<C>::CloseHeartbeatWorkers,
        ] + commands::closes::<C>(ids);
    let tail = commands::closes::<C>(ids);
    sets::listed(ids, core.replications@.dom(), id);
    if core.replications@.contains_key(id) {
        let k = choose|k: int| 0 <= k < ids.len() && #[trigger] ids[k] == id;
        assert(tail[k] == (CoreAction::<C>::CloseReplication { target: id }));
        assert(actions[k + 1] == tail[k]);
    }
    if 0 < i < actions.len() {
        assert(actions[i] == tail[i - 1]);
        assert(ids.contains(ids[i - 1]));
        sets::listed(ids, core.replications@.dom(), ids[i - 1]);
    }
}

/// What a command to the state machine makes progress counts as submitted before the command is
/// sent, which comes last: the log, what is applied, and the snapshot, each if the command says so.
pub proof fn progress_is_submitted_before_the_state_machine<C: RaftTypeConfig>(command: SmCommand)
    ensures
        ({
            let actions = RaftCore::<C>::state_machine_actions(command);
            let log = if command.log_progress is Some {
                1int
            } else {
                0
            };
            let applied = if command.apply_progress is Some {
                1int
            } else {
                0
            };
            let snapshot = if command.snapshot_progress is Some {
                1int
            } else {
                0
            };
            &&& actions.len() == log + applied + snapshot + 1
            &&& command.log_progress matches Some(io_id) ==> actions[0] == (
            CoreAction::<C>::SubmitLog { io_id })
            &&& command.apply_progress matches Some(log_id) ==> actions[log] == (
            CoreAction::<C>::SubmitApplied { log_id })
            &&& command.snapshot_progress matches Some(log_id) ==> actions[log + applied] == (
            CoreAction::<C>::SubmitSnapshot { log_id })
            &&& actions.last() == (CoreAction::<C>::SendToStateMachine { command: command.command })
        }),
{
}

/// A request for votes and one for pre-votes go out as what they are, with the request as it is.
pub proof fn votes_and_pre_votes_are_told_apart<C: RaftTypeConfig>(
    core: RaftCore<C>,
    new: RaftCore<C>,
    now: Instant,
    vote_req: crate::message::VoteRequest,
    actions: Seq<CoreAction<C>>,
)
    ensures
        core.after_command(now, Command::SendVote { vote_req }, new, actions) ==> actions.len() == 1
            && actions[0] == (CoreAction::<C>::BroadcastVote { vote_req, pre_vote: false }) && new
            == core,
        core.after_command(now, Command::SendPreVote { vote_req }, new, actions) ==> actions.len()
            == 1 && actions[0] == (CoreAction::<C>::BroadcastVote { vote_req, pre_vote: true })
            && new == core,
{
}

/// The log is applied from the entry behind the last one that is applied, or from the first, up to
/// what is committed, and that much counts as submitted and is saved as committed before.
pub proof fn log_is_applied_without_gap<C: RaftTypeConfig>(
    core: RaftCore<C>,
    new: RaftCore<C>,
    now: Instant,
    already_applied: Option<LogId>,
    upto: LogId,
    actions: Seq<CoreAction<C>>,
)
    requires
        core.after_command(
            now,
            Command::SaveCommittedAndApply { already_applied, upto },
            new,
            actions,
        ),
        already_applied matches Some(l) ==> l.index < u64::MAX,
    ensures
        new == core,
        actions.len() == 3,
        actions[0] == (CoreAction::<C>::SubmitApplied { log_id: upto }),
        actions[1] == (CoreAction::<C>::SaveCommitted { committed: upto }),
        actions[2] matches CoreAction::ApplyFrom { first_index, last } && last == upto && (
        already_applied matches Some(l) ==> first_index == l.index + 1) && (already_applied is None
            ==> first_index == 0),
{
}

/// The writers of purged and of truncated entries are dealt with after the log store is done, for
/// the same entries.
pub proof fn writers_follow_the_log_store<C: RaftTypeConfig>(
    core: RaftCore<C>,
    new: RaftCore<C>,
    now: Instant,
    upto: LogId,
    after: Option<LogId>,
    actions: Seq<CoreAction<C>>,
)
    ensures
        core.after_command(now, Command::PurgeLog { upto }, new, actions) ==> {
            &&& new == core
            &&& actions.len() == 2
            &&& actions[0] == (CoreAction::<C>::PurgeLog { upto })
            &&& actions[1] == (CoreAction::<C>::AfterPurge { upto })
        },
        core.after_command(now, Command::TruncateLog { after }, new, actions) ==> {
            &&& new == core
            &&& actions.len() == 2
            &&& actions[0] == (CoreAction::<C>::TruncateLog { after })
            &&& actions[1] == (CoreAction::<C>::AfterTruncate { after })
        },
{
}

/// A snapshot is transmitted on the stream of the replication to its target, which counts as
/// transmitting from then on; the other replications stay as they are.
pub proof fn snapshots_use_the_stream_of_their_target<C: RaftTypeConfig>(
    core: RaftCore<C>,
    new: RaftCore<C>,
    now: Instant,
    leader_vote: Vote,
    target: u64,
    inflight_id: u64,
    actions: Seq<CoreAction<C>>,
    other: u64,
)
    requires
        core.after_command(
            now,
            Command::ReplicateSnapshot { leader_vote, target, inflight_id },
            new,
            actions,
        ),
        core.replications@.contains_key(target),
    ensures
        actions.len() == 1,
        actions[0] == (CoreAction::<C>::TransmitSnapshot {
            target,
            stream_id: core.replications@[target].stream_id,
            leader_vote,
            inflight_id,
        }),
        new.replications@.contains_key(target),
        new.replications@[target].transmitting,
        new.replications@[target].stream_id == core.replications@[target].stream_id,
        other != target ==> (new.replications@.contains_key(other)
            <==> core.replications@.contains_key(other)),
        other != target && core.replications@.contains_key(other) ==> new.replications@[other]
            == core.replications@[other],
        new.engine == core.engine,
        new.client_responders == core.client_responders,
        new.pending_reads == core.pending_reads,
{
}

/// A node that stops to lead answers every waiting read with where the leader is, in their order;
/// none is left and no check is set.
pub proof fn failed_reads_are_all_sent_on<C: RaftTypeConfig>(
    core: RaftCore<C>,
    new: RaftCore<C>,
    now: Instant,
    actions: Seq<CoreAction<C>>,
    i: int,
)
    requires
        core.after_command(now, Command::FailPendingReads, new, actions),
    ensures
        new.pending_reads@.len() == 0,
        new.engine == core.engine,
        new.client_responders == core.client_responders,
        actions.len() == core.pending_reads@.len() + 1,
        actions.last() == (CoreAction::<C>::SetReadDeadline { deadline: None }),
        0 <= i < core.pending_reads@.len() ==> actions[i] == (CoreAction::<C>::ReplyRead {
            tx: core.pending_reads@[i].tx,
            result: Err(LinearizableReadError::ForwardToLeader(core.engine.state.forward())),
        }),
{
}

/// What is handed on as it is: the progress of the writes, a replication request to its target, what
/// is committed, the message of a leader that hands over, and an answer.
pub proof fn commands_are_handed_on<C: RaftTypeConfig>(
    core: RaftCore<C>,
    new: RaftCore<C>,
    now: Instant,
    io_id: IOId,
    req: u64,
    target: u64,
    committed: LogId,
    transfer: TransferLeaderRequest,
    actions: Seq<CoreAction<C>>,
)
    ensures
        core.after_command(now, Command::BroadcastTransferLeader { req: transfer }, new, actions)
            ==> new == core && actions == seq![
            CoreAction::<C>::BroadcastTransferLeader { req: transfer },
        ],
        core.after_command(now, Command::UpdateIOProgress { io_id }, new, actions) ==> {
            &&& new == core
            &&& actions.len() == 3
            &&& actions[0] == (CoreAction::<C>::BroadcastAccepted { io_id })
            &&& actions[1] == (CoreAction::<C>::SubmitLog { io_id })
            &&& actions[2] == (CoreAction::<C>::Notify {
                notification: Notification::LocalIO { io_id },
            })
        },
        core.after_command(now, Command::Replicate { req, target }, new, actions) ==> new == core
            && actions == seq![CoreAction::<C>::Replicate { target, request: req }],
        core.after_command(now, Command::ReplicateCommitted { committed }, new, actions) ==> new
            == core && actions == seq![CoreAction::<C>::BroadcastCommitted { log_id: committed }],
        core.after_command(now, Command::Respond { respond: req }, new, actions) ==> new == core
            && actions == seq![CoreAction::<C>::SendRespond { respond: req }],
{
}

/// A command can be run unless it appends nothing, speaks of a replication that is not there, or
/// applies behind the last index that there is.
pub proof fn commands_that_cannot_be_run<C: RaftTypeConfig>(core: RaftCore<C>, cmd: Command<C>)
    ensures
        core.runs(cmd) <==> match cmd {
            Command::AppendEntries { entries, .. } => entries@.len() >= 1,
            Command::SaveCommittedAndApply { already_applied: Some(l), .. } => l.index != u64::MAX,
            Command::Replicate { target, .. } => core.replications@.dom().contains(target),
            Command::ReplicateSnapshot { target, .. } => core.replications@.dom().contains(target),
            _ => true,
        },
{
}

/// Entries that another node sends are handed to the engine under the vote of that node, with its
/// previous entry.  How far the sender has committed comes after them, under the committed vote of
/// the same leader; a recorder learns of the request in between.
pub proof fn received_entries_come_before_the_commit<C: RaftTypeConfig>(
    core: RaftCore<C>,
    rpc: AppendEntriesRequest<C::Payload>,
    tx: u64,
)
    ensures
        ({
            let actions = core.append_entries_actions(rpc, tx);
            &&& actions.len() == (if core.metrics_recorder is Some {
                3int
            } else {
                2
            })
            &&& actions[0] == (CoreAction::<C>::HandleAppendEntries {
                vote: rpc.vote,
                prev_log_id: rpc.prev_log_id,
                entries: rpc.entries,
                tx,
            })
            &&& core.metrics_recorder is Some ==> actions[1] == (CoreAction::<C>::Record {
                recorder: core.metrics_recorder->0,
                what: Recorded::Append,
            })
            &&& actions.last() matches CoreAction::UpdateCommitted { committed_vote, log_id }
            &&& committed_vote.committed
            &&& committed_vote.leader_id == rpc.vote.leader_id
            &&& log_id == rpc.leader_commit
        }),
{
}

/// A write that reached the disk counts as flushed.  A leader counts its own progress exactly if
/// the write stored log entries under its own leader id.
pub proof fn leaders_count_their_own_writes<C: RaftTypeConfig>(core: RaftCore<C>, io_id: IOId)
    ensures
        ({
            let actions = core.local_io_actions(io_id);
            let own = match io_id {
                IOId::Log { committed_vote, .. } => core.engine.leader matches Some(l)
                    && l.committed_vote.leader_id.term == committed_vote.leader_id.term
                    && l.committed_vote.leader_id.node_id == committed_vote.leader_id.node_id,
                IOId::Vote(_) => false,
            };
            &&& actions[0] == (CoreAction::<C>::FlushLog { io_id })
            &&& own ==> actions.len() == 2 && actions[1] == (CoreAction::<C>::UpdateLocalProgress {
                log_id: io_id->log_id,
            })
            &&& !own ==> actions.len() == 1
        }),
{
}

/// What the state machine has done counts as flushed: entries once they are applied, and with an
/// installed snapshot the log under its vote, and what the snapshot covers as applied and as in a
/// snapshot.  A snapshot that was built is handed to the engine.
pub proof fn finished_state_machine_work_counts<C: RaftTypeConfig>(
    core: RaftCore<C>,
    res: SmResponse<C::Node>,
)
    ensures
        match res {
            SmResponse::BuildSnapshotDone(meta) => core.sm_actions(res).len() == 1
                && core.sm_actions(res)[0] == (CoreAction::<C>::SnapshotBuilt { meta }),
            SmResponse::Apply(done) => core.sm_actions(res).len() == 1 && core.sm_actions(res)[0] == (
            CoreAction::<C>::FlushApplied { log_id: done.last_applied }),
            SmResponse::InstallSnapshot { committed_vote, log_id, meta } => {
                let actions = core.sm_actions(res);
                let covers = meta is Some && meta->0.last_log_id is Some;
                &&& actions[0] == (CoreAction::<C>::FlushLog {
                    io_id: IOId::Log { committed_vote, log_id },
                })
                &&& !covers ==> actions.len() == 1
                &&& covers ==> {
                    &&& actions.len() == 3
                    &&& actions[1] == (CoreAction::<C>::FlushApplied {
                        log_id: meta->0.last_log_id->0,
                    })
                    &&& actions[2] == (CoreAction::<C>::FlushSnapshot {
                        log_id: meta->0.last_log_id->0,
                    })
                }
            },
        },
{
}

/// An answer to a request for a vote is handled exactly if this node still stands under the leader
/// id that the request was made for, and likewise one to a request for a pre-vote.  A higher vote is
/// taken up exactly if this node still leads under the leader id that met it.
pub proof fn timely_answers_are_handled<C: RaftTypeConfig>(
    core: RaftCore<C>,
    now: Instant,
    target: u64,
    resp: VoteResponse,
    asked: Vote,
    higher: Vote,
)
    ensures
        ({
            let actions = core.notification_actions(
                now,
                Notification::VoteResponse { target, resp, candidate_vote: asked },
            );
            let timely = core.engine.candidate matches Some(c) && c.vote.leader_id.term
                == asked.leader_id.term && c.vote.leader_id.node_id == asked.leader_id.node_id;
            &&& timely ==> actions == seq![CoreAction::<C>::HandleVoteResponse { target, resp }]
            &&& !timely ==> actions.len() == 0
        }),
        ({
            let actions = core.notification_actions(
                now,
                Notification::PreVoteResponse { target, resp, candidate_vote: asked },
            );
            let timely = core.engine.pre_candidate matches Some(c) && c.vote.leader_id.term
                == asked.leader_id.term && c.vote.leader_id.node_id == asked.leader_id.node_id;
            &&& timely ==> actions == seq![CoreAction::<C>::HandlePreVoteResponse { target, resp }]
            &&& !timely ==> actions.len() == 0
        }),
        ({
            let actions = core.notification_actions(
                now,
                Notification::HigherVote { target, higher, leader_vote: asked },
            );
            let timely = core.engine.leader matches Some(l) && l.committed_vote.leader_id.term
                == asked.leader_id.term && l.committed_vote.leader_id.node_id
                == asked.leader_id.node_id;
            &&& timely ==> actions == seq![CoreAction::<C>::UpdateVote { higher }]
            &&& !timely ==> actions.len() == 0
        }),
{
}

/// A leader takes up the progress of its replications and the acknowledgements of its heartbeats as
/// they are told; another node does not.  A snapshot that was in flight is done once its replication
/// tells of one, and no other replication changes.
pub proof fn only_leaders_take_up_progress<C: RaftTypeConfig>(
    core: RaftCore<C>,
    new: RaftCore<C>,
    now: Instant,
    stream_id: u64,
    target: u64,
    result: crate::raft_core::notification::ReplicationResult,
    inflight_id: Option<u64>,
    sending_time: Instant,
    other: u64,
)
    requires
        core.after_notification(
            now,
            Notification::ReplicationProgress { stream_id, target, result, inflight_id },
            new,
        ),
    ensures
        ({
            let actions = core.notification_actions(
                now,
                Notification::ReplicationProgress { stream_id, target, result, inflight_id },
            );
            let acked = core.notification_actions(
                now,
                Notification::HeartbeatProgress { stream_id, sending_time, target },
            );
            &&& core.engine.leader is Some ==> actions == seq![
                CoreAction::<C>::UpdateProgress { target, stream_id, result, inflight_id },
            ]
            &&& core.engine.leader is Some ==> acked == seq![
                CoreAction::<C>::UpdateLeaderClock { stream_id, target, sending_time },
            ]
            &&& core.engine.leader is None ==> actions.len() == 0 && acked.len() == 0
        }),
        new.replications@.dom() == core.replications@.dom(),
        core.replications@.contains_key(target) ==> new.replications@[target].stream_id
            == core.replications@[target].stream_id,
        core.replications@.contains_key(target) && inflight_id is Some
            ==> !new.replications@[target].transmitting,
        core.replications@.contains_key(target) && inflight_id is None ==> new.replications@[target]
            == core.replications@[target],
        other != target && core.replications@.contains_key(other) ==> new.replications@[other]
            == core.replications@[other],
        new.engine == core.engine,
        new.client_responders == core.client_responders,
        new.pending_reads == core.pending_reads,
{
    assert(new.replications@.dom() =~= core.replications@.dom());
}

/// A failure of the store or of the state machine stops the node with that failure; no other
/// notification does.
pub proof fn storage_failures_stop_the_node<C: RaftTypeConfig>(
    notify: Notification<C>,
    error: StorageError<C>,
)
    ensures
        RaftCore::<C>::notification_error(Notification::StorageError { error }) == Some(
            Fatal::StorageError(error),
        ),
        RaftCore::<C>::notification_error(Notification::StateMachine { result: Err(error) }) == Some(
            Fatal::StorageError(error),
        ),
        RaftCore::<C>::notification_error(notify) is Some ==> notify is StorageError || (
        notify matches Notification::StateMachine { result } && result is Err),
{
}

/// Notifications reach their handlers: a write on disk, the state machine and the deadline of a read
/// each do what is done for them, and only progress and deadlines change the core.
pub proof fn notifications_reach_their_handlers<C: RaftTypeConfig>(
    core: RaftCore<C>,
    new: RaftCore<C>,
    now: Instant,
    io_id: IOId,
    res: SmResponse<C::Node>,
    notify: Notification<C>,
)
    ensures
        core.notification_actions(now, Notification::LocalIO { io_id }) == core.local_io_actions(
            io_id,
        ),
        core.notification_actions(now, Notification::StateMachine { result: Ok(res) })
            == core.sm_actions(res),
        core.notification_actions(now, Notification::PendingReadDeadlineReached)
            == core.pending_read_actions(now),
        core.after_notification(now, Notification::PendingReadDeadlineReached, new)
            ==> new.pending_reads@ == core.reads_left(now) && new.engine == core.engine
            && new.client_responders == core.client_responders && new.replications
            == core.replications,
        core.after_notification(now, notify, new) && !(notify is ReplicationProgress) && !(
        notify is PendingReadDeadlineReached) ==> new == core,
{
}

/// Commands from outside reach the engine as they are: snapshots without a trigger, purges up to the
/// given index and transfers to the given node.  Only a leader lets a log revert; another node says
/// where the leader is.
pub proof fn outside_commands_are_handed_on<C: RaftTypeConfig>(
    core: RaftCore<C>,
    upto: u64,
    to: u64,
    allow: bool,
    tx: u64,
)
    ensures
        core.external_actions(ExternalCommand::Snapshot) == seq![
            CoreAction::<C>::TriggerSnapshot { at: None },
        ],
        core.external_actions(ExternalCommand::PurgeLog { upto }) == seq![
            CoreAction::<C>::TriggerPurgeLog { upto },
        ],
        core.external_actions(ExternalCommand::TriggerTransferLeader { to }) == seq![
            CoreAction::<C>::TriggerTransferLeader { to },
        ],
        core.engine.leader is Some ==> core.external_actions(
            ExternalCommand::AllowNextRevert { to, allow, tx },
        ) == seq![CoreAction::<C>::AllowNextRevert { to, allow, tx }],
        core.engine.leader is None ==> core.external_actions(
            ExternalCommand::AllowNextRevert { to, allow, tx },
        ) == seq![CoreAction::<C>::RefuseRevert { tx, error: core.engine.state.forward() }],
{
}

/// A delayed request to compute the server state anew is dropped if it names another vote or another
/// membership than the present ones; what it does not name does not matter.
pub proof fn outdated_refreshes_are_dropped<C: RaftTypeConfig>(
    core: RaftCore<C>,
    vote: Option<Vote>,
    membership_log_id: Option<LogId>,
)
    ensures
        ({
            let actions = core.external_actions(
                ExternalCommand::RefreshServerState { vote, membership_log_id },
            );
            let other_vote = vote matches Some(v) && v != core.engine.state.vote.vote;
            let other_membership = membership_log_id is Some && membership_log_id
                != core.engine.state.membership_state.effective.log_id;
            &&& other_vote || other_membership ==> actions.len() == 0
            &&& !other_vote && !other_membership ==> actions == seq![
                CoreAction::<C>::RefreshServerState,
            ]
        }),
{
}

/// A command changes the metrics recorder exactly if it sets one, and then it does nothing else.
pub proof fn only_setting_changes_the_recorder<C: RaftTypeConfig>(
    core: RaftCore<C>,
    recorder: Option<u64>,
    cmd: ExternalCommand,
)
    ensures
        core.recorder_after(ExternalCommand::SetMetricsRecorder { recorder }) == recorder,
        core.external_actions(ExternalCommand::SetMetricsRecorder { recorder }).len() == 0,
        !(cmd is SetMetricsRecorder) ==> core.recorder_after(cmd) == core.metrics_recorder,
{
}

/// Messages reach their handlers: requests for votes and for pre-votes are told apart, a function on
/// the state is run, and the messages that neither read nor command change nothing of the core.
pub proof fn messages_reach_their_handlers<C: RaftTypeConfig>(
    core: RaftCore<C>,
    now: Instant,
    msg: RaftMsg<C>,
    validation: Result<(), ChangeMembershipError>,
    new: RaftCore<C>,
    actions: Seq<CoreAction<C>>,
)
    requires
        core.after_api_msg(now, msg, validation, new, actions),
    ensures
        match msg {
            RaftMsg::AppendEntries { rpc, tx } => actions == core.append_entries_actions(rpc, tx),
            RaftMsg::RequestVote { rpc, tx } => actions == seq![
                CoreAction::<C>::HandleVoteRequest { rpc, tx },
            ],
            RaftMsg::RequestPreVote { rpc, tx } => actions == seq![
                CoreAction::<C>::HandlePreVoteRequest { rpc, tx },
            ],
            RaftMsg::ClientWrite { payloads, responders, expected_leader } => actions
                == core.client_write_actions(payloads, responders, expected_leader),
            RaftMsg::GetLinearizer { linearizer_option, tx } => core.after_read(
                now,
                linearizer_option,
                tx,
                new,
                actions,
            ),
            RaftMsg::Initialize { members, tx } => core.initialize_actions(members@, tx, actions),
            RaftMsg::ChangeMembership { changes, payloads, retain, preconditions, tx } =>
            core.change_membership_actions(
                changes,
                retain,
                preconditions@,
                payloads,
                tx,
                actions,
            ),
            RaftMsg::AppendMembership { payload, preconditions, tx } => actions
                == core.append_membership_actions(payload, preconditions@, validation, tx),
            RaftMsg::WithRaftState { req } => actions == seq![
                CoreAction::<C>::RunWithState { req },
            ],
            RaftMsg::HandleTransferLeader { from, to, last_log_id } => actions
                == core.transfer_leader_actions(from, to, last_log_id),
            RaftMsg::ExternalCommand { cmd } => actions == core.external_actions(cmd)
                && new.metrics_recorder == core.recorder_after(cmd) && new.engine == core.engine
                && new.pending_reads == core.pending_reads && new.client_responders
                == core.client_responders && new.replications == core.replications,
        },
        !(msg is GetLinearizer) && !(msg is ExternalCommand) ==> new == core,
{
}

/// Which writers an index parts: those up to it from those after it, and those from it on from those
/// before it.
pub proof fn indexes_part_the_writers(w: (u64, u64), index: u64)
    ensures
        responders::is_upto::<u64>(index)(w) <==> w.0 <= index,
        responders::is_after::<u64>(index)(w) <==> w.0 > index,
        responders::is_since::<u64>(index)(w) <==> w.0 >= index,
        responders::is_before::<u64>(index)(w) <==> w.0 < index,
{
}

/// Writers whose entries are gone are told so one by one, in the order in which they waited, with
/// where the leader is.
pub proof fn drained_writers_are_told<C: RaftTypeConfig>(
    drained: Seq<(u64, u64)>,
    error: crate::errors::ForwardToLeader<C::Node>,
    i: int,
)
    ensures
        crate::raft_core::handlers::fail_drained::<C>(drained, error).len() == drained.len(),
        0 <= i < drained.len() ==> crate::raft_core::handlers::fail_drained::<C>(drained, error)[i]
            == (CoreAction::<C>::FailWrite {
            tx: drained[i].1,
            error: crate::errors::ClientWriteError::ForwardToLeader(error),
        }),
{
}

/// Where only the waiting reads, or only the waiting writers, may differ, everything else is the
/// same.
pub proof fn frames_keep_everything_else<C: RaftTypeConfig>(a: RaftCore<C>, b: RaftCore<C>)
    ensures
        a.same_but_reads(b) || a.same_but_responders(b) ==> {
            &&& a.id == b.id
            &&& a.config == b.config
            &&& a.runtime_config == b.runtime_config
            &&& a.timer_config == b.timer_config
            &&& a.engine == b.engine
            &&& a.replications == b.replications
            &&& a.snapshot_tried_at == b.snapshot_tried_at
            &&& a.metrics_recorder == b.metrics_recorder
        },
        a.same_but_reads(b) ==> a.client_responders == b.client_responders,
        a.same_but_responders(b) ==> a.pending_reads == b.pending_reads,
{
}

/// What a replication works with is told by the node, its target and the stream that is given.
pub proof fn replications_know_their_ends<C: RaftTypeConfig>(
    core: RaftCore<C>,
    leader_vote: Vote,
    prog: TargetProgress,
)
    ensures
        ({
            let c = core.replication_context(leader_vote, prog);
            &&& c.id == core.id
            &&& c.target == prog.target
            &&& c.stream_id == prog.stream_id
            &&& c.leader_vote == leader_vote
            &&& c.config == core.config
        }),
{
}

/// A failed write is about the vote where it saved the vote, about the store where it saved what is
/// committed, and about the log in every other case.
pub proof fn failed_writes_name_their_subject(w: commands::StoreWrite)
    ensures
        w.subject() == crate::errors::storage_error::ErrorSubject::Vote
            <==> w == commands::StoreWrite::SaveVote,
        w.subject() == crate::errors::storage_error::ErrorSubject::Store
            <==> w == commands::StoreWrite::SaveCommitted,
        w.subject() == crate::errors::storage_error::ErrorSubject::Logs <==> w
            == commands::StoreWrite::AppendLog || w == commands::StoreWrite::PurgeLog || w
            == commands::StoreWrite::TruncateLog,
{
}

/// A message can be handled unless it changes a membership that has no voter set, appends a membership
/// that is not in its payload, or asks for a read whose times cannot be represented.  A node that does
/// not lead changes no membership.
pub proof fn messages_that_cannot_be_handled<C: RaftTypeConfig>(
    core: RaftCore<C>,
    now: Instant,
    msg: RaftMsg<C>,
    r: bool,
)
    requires
        call_ensures(RaftCore::<C>::can_handle, (&core, now, &msg), r),
    ensures
        !(msg is GetLinearizer) && !(msg is ChangeMembership) && !(msg is AppendMembership) ==> r,
        msg is ChangeMembership ==> (r <==> core.engine.leader is None
            || core.engine.leader->0.transfer_to is Some
            || core.engine.state.membership_state.effective.membership@.configs.len() > 0),
        msg matches RaftMsg::AppendMembership { payload, .. } ==> (r
            <==> payload.membership_spec() is Some),
        msg matches RaftMsg::GetLinearizer { linearizer_option, .. } ==> (r <==> core.read_times_fit(
            now,
            linearizer_option,
        )),
{
}

} // verus!
