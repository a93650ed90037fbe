//! Who is written for, who is refused, and with what answer.

use vstd::prelude::*;
use crate::batch::Batch;
use crate::errors::{
    ChangeMembershipError,
    ClientWriteError,
    ForwardToLeader,
    InitializeError,
    PreconditionFailed,
};
use crate::log_id::{LeaderId, LogId};
use crate::log_id;
use crate::membership::ChangeMembers;
use crate::raft_core::action::{CoreAction, Response};
use crate::raft_core::handlers::RaftCore;
use crate::raft_core::handlers;
use crate::raft_core::laws;
use crate::raft_core::membership_handlers;
use crate::raft_core::raft_msg::{MembershipPayloads, SelectedPayload};
use crate::raft_core::state::Precondition;
use crate::raft_core::state;
use crate::entry::RaftPayload;
use crate::type_config::RaftTypeConfig;
use crate::vote::Vote;

verus! {

/// A node accepts requests for a leader exactly if it leads and hands its leadership to nobody,
/// and writes if its lease is valid besides.
pub proof fn leader_accepts_requests<C: RaftTypeConfig>(core: RaftCore<C>)
    ensures
        core.leading() is Ok <==> (core.engine.leader matches Some(l) && l.transfer_to is None),
        core.writable() is Ok <==> (core.engine.leader matches Some(l) && l.transfer_to is None
            && l.lease_valid),
{
}

/// A request that this node does not accept is sent to the node that can take it, with what the
/// membership tells of that node: to the one that the leadership is handed to, else to the leader
/// of a committed vote.  A node that is no member is not named, nor is anybody by a leader whose
/// lease has run out.
pub proof fn requests_are_sent_to_the_leader<C: RaftTypeConfig>(core: RaftCore<C>)
    ensures
        ({
            let nodes = core.engine.state.membership_state.effective.membership.nodes@;
            let vote = core.engine.state.vote.vote;
            core.leading() matches Err(f) ==> {
                &&& f.leader_id matches Some(id) ==> {
                    &&& nodes.contains_key(id)
                    &&& f.leader_node == Some(nodes[id])
                    &&& core.engine.leader matches Some(l) ==> l.transfer_to == Some(id)
                    &&& core.engine.leader is None ==> vote.committed && vote.leader_id.node_id == id
                }
                &&& f.leader_id is None ==> {
                    &&& f.leader_node is None
                    &&& core.engine.leader matches Some(l) ==> !nodes.contains_key(l.transfer_to->0)
                    &&& core.engine.leader is None && vote.committed ==> !nodes.contains_key(
                        vote.leader_id.node_id,
                    )
                }
            }
        }),
        core.leading() is Err ==> core.writable() == core.leading(),
        core.leading() is Ok && !core.engine.leader->0.lease_valid ==> (core.writable() matches Err(
            f,
        ) && f.leader_id is None && f.leader_node is None),
{
}

/// What a leader accepts it appends as it came: all payloads, with all writers, in one step.
pub proof fn accepted_writes_are_appended<C: RaftTypeConfig>(
    core: RaftCore<C>,
    payloads: Batch<C::Payload>,
    responders: Batch<Option<u64>>,
)
    requires
        core.engine.leader matches Some(l) && l.transfer_to is None && l.lease_valid,
    ensures
        core.write_actions(payloads, responders) == seq![
            CoreAction::<C>::LeaderAppend { payloads, responders },
        ],
{
}

proof fn lemma_waiting(responders: Seq<Option<u64>>, k: int)
    requires
        0 <= k < responders.len(),
    ensures
        laws::waiting(responders.take(k)).len() <= laws::waiting(responders).len(),
        responders[k] matches Some(tx) ==> {
            &&& laws::waiting(responders.take(k)).len() < laws::waiting(responders).len()
            &&& laws::waiting(responders)[laws::waiting(responders.take(k)).len() as int] == tx
        },
    decreases responders.len(),
{
    let rest = responders.drop_last();
    if k < rest.len() {
        assert(rest.take(k) =~= responders.take(k));
        lemma_waiting(rest, k);
    } else {
        assert(responders.take(k) =~= rest);
    }
}

/// A writer that waits for an answer is listed behind those of the entries before its own, and
/// only such writers are listed.
pub proof fn waiting_writers_are_listed(responders: Seq<Option<u64>>, k: int, p: int)
    ensures
        0 <= k < responders.len() && responders[k] is Some ==> {
            let at = laws::waiting(responders.take(k)).len() as int;
            at < laws::waiting(responders).len() && laws::waiting(responders)[at]
                == responders[k]->0
        },
        0 <= p < laws::waiting(responders).len() ==> exists|j: int|
            0 <= j < responders.len() && #[trigger] responders[j] == Some(
                laws::waiting(responders)[p],
            ) && laws::waiting(responders.take(j)).len() == p,
    decreases responders.len(),
{
    if 0 <= k < responders.len() {
        lemma_waiting(responders, k);
    }
    if 0 <= p < laws::waiting(responders).len() {
        let rest = responders.drop_last();
        if p < laws::waiting(rest).len() {
            waiting_writers_are_listed(rest, -1, p);
            let j = choose|j: int|
                0 <= j < rest.len() && #[trigger] rest[j] == Some(laws::waiting(rest)[p])
                    && laws::waiting(rest.take(j)).len() == p;
            assert(responders[j] == rest[j]);
            assert(rest.take(j) =~= responders.take(j));
        } else {
            let j = responders.len() - 1;
            assert(responders.take(j) =~= rest);
            assert(responders[j] == Some(laws::waiting(responders)[p]));
        }
    }
}

proof fn lemma_refusals<C: RaftTypeConfig>(
    responders: Seq<Option<u64>>,
    error: ForwardToLeader<C::Node>,
    p: int,
)
    ensures
        handlers::fail_writers::<C>(responders, error).len() == laws::waiting(responders).len(),
        0 <= p < laws::waiting(responders).len() ==> handlers::fail_writers::<C>(
            responders,
            error,
        )[p] == (CoreAction::<C>::FailWrite {
            tx: laws::waiting(responders)[p],
            error: ClientWriteError::ForwardToLeader(error),
        }),
    decreases responders.len(),
{
    if responders.len() > 0 {
        lemma_refusals::<C>(responders.drop_last(), error, p);
    }
}

/// Every writer of a batch that is refused gets one answer, at its place among the writers that
/// wait for one, and the answer says where the leader is.
pub proof fn refused_write_answers_each_writer<C: RaftTypeConfig>(
    core: RaftCore<C>,
    payloads: Batch<C::Payload>,
    responders: Batch<Option<u64>>,
    k: int,
)
    requires
        core.writable() is Err,
        0 <= k < responders@.len(),
    ensures
        ({
            let actions = core.write_actions(payloads, responders);
            let at = laws::waiting(responders@.take(k)).len() as int;
            &&& actions.len() == laws::waiting(responders@).len()
            &&& responders@[k] matches Some(tx) ==> at < actions.len() && actions[at] == (
            CoreAction::<C>::FailWrite {
                tx,
                error: ClientWriteError::ForwardToLeader(core.writable()->Err_0),
            })
        }),
{
    lemma_waiting(responders@, k);
    lemma_refusals::<C>(
        responders@,
        core.writable()->Err_0,
        laws::waiting(responders@.take(k)).len() as int,
    );
}

/// A write that names its leader is taken only under the committed vote of that leader, and then,
/// or if it names none, it is taken as any write is.  Else each of its writers learns where the
/// present leader is.
pub proof fn expected_leader_must_lead<C: RaftTypeConfig>(
    core: RaftCore<C>,
    payloads: Batch<C::Payload>,
    responders: Batch<Option<u64>>,
    expected: LeaderId,
    k: int,
)
    requires
        0 <= k < responders@.len(),
    ensures
        core.client_write_actions(payloads, responders, None) == core.write_actions(
            payloads,
            responders,
        ),
        ({
            let vote = core.engine.state.vote.vote;
            let actions = core.client_write_actions(payloads, responders, Some(expected));
            let at = laws::waiting(responders@.take(k)).len() as int;
            &&& vote.committed && vote.leader_id.term == expected.term && vote.leader_id.node_id
                == expected.node_id ==> actions == core.write_actions(payloads, responders)
            &&& !vote.committed || vote.leader_id.term != expected.term || vote.leader_id.node_id
                != expected.node_id ==> {
                &&& actions.len() == laws::waiting(responders@).len()
                &&& responders@[k] matches Some(tx) ==> at < actions.len() && actions[at] == (
                CoreAction::<C>::FailWrite {
                    tx,
                    error: ClientWriteError::ForwardToLeader(core.engine.state.forward()),
                })
            }
        }),
{
    lemma_waiting(responders@, k);
    lemma_refusals::<C>(
        responders@,
        core.engine.state.forward(),
        laws::waiting(responders@.take(k)).len() as int,
    );
}

/// Where a node points to: to the leader of a committed vote if it is a member, and to what is
/// known of it, else to nobody.
pub proof fn forwarding_names_a_member<C: RaftTypeConfig>(core: RaftCore<C>, to: u64)
    ensures
        ({
            let nodes = core.engine.state.membership_state.effective.membership.nodes@;
            let vote = core.engine.state.vote.vote;
            let f = core.engine.state.forward();
            let t = core.engine.state.forward_to(to);
            &&& f.leader_id is Some <==> vote.committed && nodes.contains_key(
                vote.leader_id.node_id,
            )
            &&& f.leader_id matches Some(id) ==> id == vote.leader_id.node_id
            &&& t.leader_id is Some <==> nodes.contains_key(to)
            &&& t.leader_id matches Some(id) ==> id == to
            &&& f.leader_node is Some <==> f.leader_id is Some
            &&& t.leader_node is Some <==> t.leader_id is Some
            &&& f.leader_node matches Some(n) ==> n == nodes[vote.leader_id.node_id]
            &&& t.leader_node matches Some(n) ==> n == nodes[to]
        }),
{
}

/// Each writer of appended entries waits at the index of its own entry, behind those that waited
/// before and those of the entries before its own.
pub proof fn writers_wait_at_their_entries<C: RaftTypeConfig>(
    queue: Seq<(u64, u64)>,
    log_ids: Seq<LogId>,
    responders: Seq<Option<u64>>,
    k: int,
)
    requires
        log_ids.len() == responders.len(),
        0 <= k < responders.len(),
    ensures
        ({
            let after = RaftCore::<C>::with_writers(queue, log_ids, responders);
            let at = queue.len() + laws::waiting(responders.take(k)).len();
            responders[k] matches Some(tx) ==> at < after.len() && after[at as int] == (
                log_ids[k].index,
                tx,
            )
        }),
{
    lemma_places::<C>(queue, log_ids, responders, k);
}

proof fn lemma_places<C: RaftTypeConfig>(
    queue: Seq<(u64, u64)>,
    log_ids: Seq<LogId>,
    responders: Seq<Option<u64>>,
    k: int,
)
    requires
        responders.len() <= log_ids.len(),
        0 <= k < responders.len(),
    ensures
        ({
            let after = RaftCore::<C>::with_writers(queue, log_ids, responders);
            let at = queue.len() + laws::waiting(responders.take(k)).len();
            &&& after.len() == queue.len() + laws::waiting(responders).len()
            &&& responders[k] matches Some(tx) ==> at < after.len() && after[at as int] == (
                log_ids[k].index,
                tx,
            )
        }),
    decreases responders.len(),
{
    lemma_waiting(responders, k);
    let rest = responders.drop_last();
    if k < rest.len() {
        assert(rest.take(k) =~= responders.take(k));
        lemma_places::<C>(queue, log_ids, rest, k);
        lemma_waiting(rest, k);
    } else {
        assert(responders.take(k) =~= rest);
        if rest.len() > 0 {
            lemma_places::<C>(queue, log_ids, rest, 0);
        }
    }
}

/// Nobody but the writers of the appended entries joins the queue, each for an entry of its own
/// and in the order of the entries, and nobody leaves it.
pub proof fn only_writers_of_entries_join<C: RaftTypeConfig>(
    queue: Seq<(u64, u64)>,
    log_ids: Seq<LogId>,
    responders: Seq<Option<u64>>,
    p: int,
)
    requires
        log_ids.len() == responders.len(),
        0 <= p < RaftCore::<C>::with_writers(queue, log_ids, responders).len(),
    ensures
        ({
            let after = RaftCore::<C>::with_writers(queue, log_ids, responders);
            &&& queue.len() <= after.len()
            &&& p < queue.len() ==> after[p] == queue[p]
            &&& p >= queue.len() ==> exists|k: int|
                0 <= k < responders.len() && #[trigger] responders[k] == Some(after[p].1)
                    && log_ids[k].index == after[p].0 && laws::waiting(responders.take(k)).len()
                    == p - queue.len()
        }),
{
    laws::appended_writers_wait::<C>(queue, log_ids, responders);
    let after = RaftCore::<C>::with_writers(queue, log_ids, responders);
    if p < queue.len() {
        assert(after.take(queue.len() as int)[p] == queue[p]);
    } else {
        let q = p - queue.len();
        waiting_writers_are_listed(responders, -1, q);
        let k = choose|k: int|
            0 <= k < responders.len() && #[trigger] responders[k] == Some(
                laws::waiting(responders)[q],
            ) && laws::waiting(responders.take(k)).len() == q;
        lemma_places::<C>(queue, log_ids, responders, k);
    }
}

/// The conditions of a caller hold exactly if each of them names the log id at which the membership
/// in effect stands.  The first that does not is reported with what it names and with what stands.
pub proof fn conditions_are_checked_in_order(preconditions: Seq<Precondition>, actual: Option<LogId>)
    ensures
        state::check_all(preconditions, actual) is Ok <==> forall|i: int|
            0 <= i < preconditions.len() ==> (#[trigger] preconditions[i])->last_membership_log_id
                == actual,
        state::check_all(preconditions, actual) matches Err(e) ==> exists|i: int|
            {
                &&& 0 <= i < preconditions.len()
                &&& (#[trigger] preconditions[i])->last_membership_log_id != actual
                &&& e == (PreconditionFailed::LastMembershipLogId {
                    expected: preconditions[i]->last_membership_log_id,
                    actual,
                })
                &&& forall|j: int|
                    0 <= j < i ==> (#[trigger] preconditions[j])->last_membership_log_id == actual
            },
    decreases preconditions.len(),
{
    if preconditions.len() > 0 {
        let rest = preconditions.skip(1);
        conditions_are_checked_in_order(rest, actual);
        assert forall|i: int| 0 <= i < rest.len() implies #[trigger] rest[i] == preconditions[i
            + 1] by {}
        if preconditions[0]->last_membership_log_id == actual {
            if state::check_all(rest, actual) is Ok {
                assert forall|i: int| 0 <= i < preconditions.len() implies (
                #[trigger] preconditions[i])->last_membership_log_id == actual by {
                    if i > 0 {
                        assert(rest[i - 1] == preconditions[i]);
                    }
                }
            } else {
                let e = state::check_all(rest, actual)->Err_0;
                let i = choose|i: int|
                    {
                        &&& 0 <= i < rest.len()
                        &&& (#[trigger] rest[i])->last_membership_log_id != actual
                        &&& e == (PreconditionFailed::LastMembershipLogId {
                            expected: rest[i]->last_membership_log_id,
                            actual,
                        })
                        &&& forall|j: int|
                            0 <= j < i ==> (#[trigger] rest[j])->last_membership_log_id == actual
                    };
                assert(preconditions[i + 1]->last_membership_log_id != actual);
                assert forall|j: int| 0 <= j < i + 1 implies (
                #[trigger] preconditions[j])->last_membership_log_id == actual by {
                    if j > 0 {
                        assert(rest[j - 1] == preconditions[j]);
                    }
                }
            }
        } else {
            assert(preconditions[0]->last_membership_log_id != actual);
        }
    }
}

/// A membership is appended only by a leader with a valid lease that hands its leadership to
/// nobody, that has committed its own first entry, where the conditions of the caller hold and the
/// membership is admitted.  What is appended is the payload of the caller, for the caller.
pub proof fn appended_membership_follows_the_leaders_log<C: RaftTypeConfig>(
    core: RaftCore<C>,
    payload: C::Payload,
    preconditions: Seq<Precondition>,
    validation: Result<(), ChangeMembershipError>,
    tx: u64,
    i: int,
)
    requires
        0 <= i < core.append_membership_actions(payload, preconditions, validation, tx).len(),
        core.append_membership_actions(payload, preconditions, validation, tx)[i] is LeaderAppend,
    ensures
        ({
            let leader = core.engine.leader->0;
            &&& core.engine.leader is Some
            &&& leader.transfer_to is None
            &&& leader.lease_valid
            &&& core.engine.state.cluster_committed matches Some(committed)
                && leader.noop_log_id.at_most(committed)
            &&& validation is Ok
        }),
        forall|j: int|
            0 <= j < preconditions.len() ==> (#[trigger] preconditions[j])->last_membership_log_id
                == core.engine.state.membership_state.effective.log_id,
        core.append_membership_actions(payload, preconditions, validation, tx) == seq![
            CoreAction::<C>::LeaderAppend {
                payloads: Batch::One(payload),
                responders: Batch::One(Some(tx)),
            },
        ],
{
    conditions_are_checked_in_order(
        preconditions,
        core.engine.state.membership_state.effective.log_id,
    );
}

/// Where all of that holds, the membership is appended.
pub proof fn admitted_membership_is_appended<C: RaftTypeConfig>(
    core: RaftCore<C>,
    payload: C::Payload,
    preconditions: Seq<Precondition>,
    tx: u64,
)
    requires
        core.engine.leader matches Some(l) && l.transfer_to is None && l.lease_valid,
        core.engine.state.cluster_committed matches Some(committed)
            && core.engine.leader->0.noop_log_id.at_most(committed),
        forall|j: int|
            0 <= j < preconditions.len() ==> (#[trigger] preconditions[j])->last_membership_log_id
                == core.engine.state.membership_state.effective.log_id,
    ensures
        core.append_membership_actions(payload, preconditions, Ok(()), tx) == seq![
            CoreAction::<C>::LeaderAppend {
                payloads: Batch::One(payload),
                responders: Batch::One(Some(tx)),
            },
        ],
{
    conditions_are_checked_in_order(
        preconditions,
        core.engine.state.membership_state.effective.log_id,
    );
}

/// A leader that has not committed its own first entry appends no membership.  It says how far the
/// cluster has committed and which entry is missing, whatever is known of the membership in effect.
pub proof fn uncommitted_leader_refuses_memberships<C: RaftTypeConfig>(
    core: RaftCore<C>,
    payload: C::Payload,
    preconditions: Seq<Precondition>,
    validation: Result<(), ChangeMembershipError>,
    tx: u64,
)
    requires
        core.engine.leader matches Some(l) && l.transfer_to is None && l.lease_valid,
        core.engine.state.cluster_committed matches Some(committed)
            ==> !core.engine.leader->0.noop_log_id.at_most(committed),
        forall|j: int|
            0 <= j < preconditions.len() ==> (#[trigger] preconditions[j])->last_membership_log_id
                == core.engine.state.membership_state.effective.log_id,
    ensures
        core.append_membership_actions(payload, preconditions, validation, tx) == seq![
            CoreAction::<C>::FailWrite {
                tx,
                error: ClientWriteError::ChangeMembershipError(
                    ChangeMembershipError::UncommittedLeaderLog {
                        committed: core.engine.state.cluster_committed,
                        leader_log_id: core.engine.leader->0.noop_log_id,
                    },
                ),
            },
        ],
{
    conditions_are_checked_in_order(
        preconditions,
        core.engine.state.membership_state.effective.log_id,
    );
}

/// The first entry of a leader counts as committed exactly if the cluster has committed up to it
/// or beyond, in the order of log ids.
pub proof fn leader_log_is_measured_by_the_cluster<C: RaftTypeConfig>(core: RaftCore<C>)
    requires
        core.engine.leader is Some,
    ensures
        ({
            let noop = core.engine.leader->0.noop_log_id;
            let judged = membership_handlers::leader_log_committed(
                core.engine.state,
                core.engine.leader->0,
            );
            &&& judged is Ok <==> (core.engine.state.cluster_committed matches Some(c) && (
            c.leader_id.term > noop.leader_id.term || (c.leader_id.term == noop.leader_id.term && (
            c.leader_id.node_id > noop.leader_id.node_id || (c.leader_id.node_id
                == noop.leader_id.node_id && c.index >= noop.index)))))
            &&& judged matches Err(e) ==> e == (ChangeMembershipError::UncommittedLeaderLog {
                committed: core.engine.state.cluster_committed,
                leader_log_id: noop,
            })
        }),
{
}

/// A membership that is not admitted, a condition that fails and a leader that may not write each
/// give their own answer, and a failed condition is told before anything that the leader could
/// still mend.
pub proof fn refused_membership_says_why<C: RaftTypeConfig>(
    core: RaftCore<C>,
    payload: C::Payload,
    preconditions: Seq<Precondition>,
    validation: Result<(), ChangeMembershipError>,
    tx: u64,
    bad: int,
)
    ensures
        core.writable() matches Err(f) ==> core.append_membership_actions(
            payload,
            preconditions,
            validation,
            tx,
        ) == seq![
            CoreAction::<C>::FailWrite { tx, error: ClientWriteError::ForwardToLeader(f) },
        ],
        core.writable() is Ok && 0 <= bad < preconditions.len()
            && preconditions[bad]->last_membership_log_id
            != core.engine.state.membership_state.effective.log_id ==> {
            let actions = core.append_membership_actions(payload, preconditions, validation, tx);
            &&& actions.len() == 1
            &&& actions[0] matches CoreAction::FailWrite {
                tx: answered,
                error: ClientWriteError::PreconditionFailed(
                    PreconditionFailed::LastMembershipLogId { expected, actual },
                ),
            }
            &&& answered == tx
            &&& actual == core.engine.state.membership_state.effective.log_id
            &&& expected != actual
        },
        core.writable() is Ok && core.engine.state.cluster_committed is Some
            && core.engine.leader->0.noop_log_id.at_most(core.engine.state.cluster_committed->0) && (
        forall|j: int|
            0 <= j < preconditions.len() ==> (#[trigger] preconditions[j])->last_membership_log_id
                == core.engine.state.membership_state.effective.log_id) && validation is Err
            ==> core.append_membership_actions(payload, preconditions, validation, tx) == seq![
            CoreAction::<C>::FailWrite {
                tx,
                error: ClientWriteError::ChangeMembershipError(validation->Err_0),
            },
        ],
{
    conditions_are_checked_in_order(
        preconditions,
        core.engine.state.membership_state.effective.log_id,
    );
}

/// A membership change appends only where the membership in effect is committed, the conditions of
/// the caller hold, and a leader with a valid lease takes it.  The appended payload holds the
/// membership that the change proposes, in which no voter set is empty and every voter is known.
pub proof fn changed_membership_is_admitted<C: RaftTypeConfig>(
    core: RaftCore<C>,
    changes: ChangeMembers<C::Node>,
    retain: bool,
    preconditions: Seq<Precondition>,
    payloads: MembershipPayloads<C>,
    tx: u64,
    actions: Seq<CoreAction<C>>,
    i: int,
)
    requires
        core.change_membership_actions(changes, retain, preconditions, payloads, tx, actions),
        0 <= i < actions.len(),
        actions[i] is LeaderAppend,
    ensures
        core.engine.leader matches Some(l) && l.transfer_to is None && l.lease_valid,
        core.engine.state.membership_state.committed.log_id
            == core.engine.state.membership_state.effective.log_id,
        forall|j: int|
            0 <= j < preconditions.len() ==> (#[trigger] preconditions[j])->last_membership_log_id
                == core.engine.state.membership_state.effective.log_id,
        i == actions.len() - 1,
        ({
            let next = changes.proposed(
                core.engine.state.membership_state.effective.membership@,
                retain,
            );
            &&& actions[i] matches CoreAction::LeaderAppend {
                payloads: Batch::One(payload),
                responders: Batch::One(Some(writer)),
            }
            &&& writer == tx
            &&& payload.membership_spec() == Some(next)
            &&& forall|c: int|
                0 <= c < next.configs.len() ==> #[trigger] next.configs[c] != Set::<u64>::empty()
            &&& forall|c: int, id: u64|
                0 <= c < next.configs.len() && (#[trigger] next.configs[c]).contains(id)
                    ==> #[trigger] next.nodes.contains_key(id)
        }),
{
    let ms = core.engine.state.membership_state;
    conditions_are_checked_in_order(preconditions, ms.effective.log_id);
    let next = changes.proposed(ms.effective.membership@, retain);
    let selected = choose|selected: SelectedPayload<C>|
        membership_handlers::carries(payloads, next, selected) && actions
            =~= #[trigger] membership_handlers::returned(selected) + core.write_actions(
            Batch::One(selected.payload),
            Batch::One(Some(tx)),
        );
    let m = choose|m: crate::membership::Membership<C::Node>|
        m@ == next && #[trigger] payloads.selected(m) == selected;
    match payloads {
        MembershipPayloads::Uniform(p) => {
            C::Payload::membership_is_read_back(p, m);
        },
        MembershipPayloads::JointOrUniform { joint, uniform, .. } => {
            C::Payload::membership_is_read_back(joint, m);
            C::Payload::membership_is_read_back(uniform, m);
        },
    }
    assert forall|c: int, id: u64|
        0 <= c < next.configs.len() && (#[trigger] next.configs[c]).contains(id) implies
        #[trigger] next.nodes.contains_key(id) by {
        assert(next.voters().contains(id));
        assert(next.nodes.dom().contains(id));
    }
    assert forall|c: int| 0 <= c < next.configs.len() implies #[trigger] next.configs[c] != Set::<
        u64,
    >::empty() by {
        assert(crate::membership::has_member(next.configs[c]));
    }
    let ret = membership_handlers::returned(selected);
    let write = core.write_actions(Batch::One(selected.payload), Batch::One(Some(tx)));
    assert(ret.len() <= 1);
    if core.writable() is Err {
        lemma_refusals::<C>(
            Batch::<Option<u64>>::One(Some(tx))@,
            core.writable()->Err_0,
            i - ret.len(),
        );
    }
    assert(actions[i] == (CoreAction::<C>::LeaderAppend {
        payloads: Batch::One(selected.payload),
        responders: Batch::One(Some(tx)),
    }));
    assert(selected.payload.membership_spec() == Some(next));
}

/// A membership change that a leader refuses is told why: the previous change is under way, a
/// condition fails, a voter set would be empty, or a voter would be unknown.  Nothing is appended.
pub proof fn refused_change_says_why<C: RaftTypeConfig>(
    core: RaftCore<C>,
    changes: ChangeMembers<C::Node>,
    retain: bool,
    preconditions: Seq<Precondition>,
    payloads: MembershipPayloads<C>,
    tx: u64,
    actions: Seq<CoreAction<C>>,
    bad: int,
    empty: int,
)
    requires
        core.change_membership_actions(changes, retain, preconditions, payloads, tx, actions),
    ensures
        core.leading() matches Err(f) ==> actions == seq![
            CoreAction::<C>::FailWrite { tx, error: ClientWriteError::ForwardToLeader(f) },
        ],
        core.leading() is Ok && 0 <= bad < preconditions.len()
            && preconditions[bad]->last_membership_log_id
            != core.engine.state.membership_state.effective.log_id ==> {
            &&& actions.len() == 1
            &&& actions[0] matches CoreAction::FailWrite {
                tx: answered,
                error: ClientWriteError::PreconditionFailed(
                    PreconditionFailed::LastMembershipLogId { expected, actual },
                ),
            }
            &&& answered == tx
            &&& actual == core.engine.state.membership_state.effective.log_id
            &&& expected != actual
        },
        core.leading() is Ok && (forall|j: int|
            0 <= j < preconditions.len() ==> (#[trigger] preconditions[j])->last_membership_log_id
                == core.engine.state.membership_state.effective.log_id) ==> {
            let ms = core.engine.state.membership_state;
            let next = changes.proposed(ms.effective.membership@, retain);
            &&& ms.committed.log_id != ms.effective.log_id ==> actions == seq![
                CoreAction::<C>::FailWrite {
                    tx,
                    error: ClientWriteError::ChangeMembershipError(
                        ChangeMembershipError::InProgress {
                            committed: ms.committed.log_id,
                            membership_log_id: ms.effective.log_id,
                        },
                    ),
                },
            ]
            &&& ms.committed.log_id == ms.effective.log_id && 0 <= empty < next.configs.len() && (
            forall|id: u64| !#[trigger] next.configs[empty].contains(id)) ==> actions == seq![
                CoreAction::<C>::FailWrite {
                    tx,
                    error: ClientWriteError::ChangeMembershipError(
                        ChangeMembershipError::EmptyMembership,
                    ),
                },
            ]
        },
{
    let ms = core.engine.state.membership_state;
    conditions_are_checked_in_order(preconditions, ms.effective.log_id);
    let next = changes.proposed(ms.effective.membership@, retain);
    if core.leading() is Ok && state::check_all(preconditions, ms.effective.log_id) is Ok {
        if ms.committed.log_id == ms.effective.log_id && 0 <= empty < next.configs.len() && (
        forall|id: u64| !#[trigger] next.configs[empty].contains(id)) {
            assert(!crate::membership::has_member(next.configs[empty]));
            assert(!next.no_empty_config());
        }
    }
}

/// A voter that is not known makes a change fail with the name of an unknown voter.
pub proof fn unknown_voters_are_refused<C: RaftTypeConfig>(
    core: RaftCore<C>,
    changes: ChangeMembers<C::Node>,
    retain: bool,
    preconditions: Seq<Precondition>,
    payloads: MembershipPayloads<C>,
    tx: u64,
    actions: Seq<CoreAction<C>>,
    at: int,
    unknown: u64,
)
    requires
        core.change_membership_actions(changes, retain, preconditions, payloads, tx, actions),
        core.leading() is Ok,
        forall|j: int|
            0 <= j < preconditions.len() ==> (#[trigger] preconditions[j])->last_membership_log_id
                == core.engine.state.membership_state.effective.log_id,
        core.engine.state.membership_state.committed.log_id
            == core.engine.state.membership_state.effective.log_id,
        ({
            let next = changes.proposed(
                core.engine.state.membership_state.effective.membership@,
                retain,
            );
            &&& 0 <= at < next.configs.len()
            &&& next.configs[at].contains(unknown)
            &&& !next.nodes.contains_key(unknown)
            &&& forall|c: int|
                0 <= c < next.configs.len() ==> #[trigger] next.configs[c] != Set::<u64>::empty()
        }),
    ensures
        ({
            let next = changes.proposed(
                core.engine.state.membership_state.effective.membership@,
                retain,
            );
            &&& actions.len() == 1
            &&& actions[0] matches CoreAction::FailWrite {
                tx: answered,
                error: ClientWriteError::ChangeMembershipError(
                    ChangeMembershipError::LearnerNotFound { node_id },
                ),
            }
            &&& answered == tx
            &&& !next.nodes.contains_key(node_id)
            &&& exists|c: int|
                0 <= c < next.configs.len() && (#[trigger] next.configs[c]).contains(node_id)
        }),
{
    let ms = core.engine.state.membership_state;
    conditions_are_checked_in_order(preconditions, ms.effective.log_id);
    let next = changes.proposed(ms.effective.membership@, retain);
    assert(next.voters().contains(unknown));
    assert(!next.nodes.dom().contains(unknown));
    assert(!next.voters_are_nodes());
    assert forall|c: int| 0 <= c < next.configs.len() implies crate::membership::has_member(
        #[trigger] next.configs[c],
    ) by {
        let s = next.configs[c];
        if forall|id: u64| !s.contains(id) {
            assert(s =~= Set::<u64>::empty());
        }
    }
    assert(next.no_empty_config());
}

/// Of the two payloads of a membership change, the one for joint memberships carries a membership
/// with more than one voter set and the other is sent back, and the other way round.  A payload
/// that is the only one carries every membership.
pub proof fn payload_fits_the_membership<C: RaftTypeConfig>(
    joint: C::Payload,
    uniform: C::Payload,
    unused_tx: u64,
    m: crate::membership::Membership<C::Node>,
)
    ensures
        ({
            let both = MembershipPayloads::<C>::JointOrUniform { joint, uniform, unused_tx };
            let one = MembershipPayloads::<C>::Uniform(uniform);
            &&& m.configs@.len() >= 2 ==> {
                &&& both.selected(m).payload == joint.with_membership_spec(m)
                &&& both.selected(m).unused == Some((uniform, unused_tx))
            }
            &&& m.configs@.len() < 2 ==> {
                &&& both.selected(m).payload == uniform.with_membership_spec(m)
                &&& both.selected(m).unused == Some((joint, unused_tx))
            }
            &&& one.selected(m).payload == uniform.with_membership_spec(m)
            &&& one.selected(m).unused is None
        }),
{
    assert(m@.configs.len() == m.configs@.len());
}

/// A payload that a membership change did not use goes back on the channel that was given for it,
/// before the change is written; where there is none, nothing goes back.
pub proof fn unused_payload_is_sent_back<C: RaftTypeConfig>(selected: SelectedPayload<C>)
    ensures
        selected.unused matches Some((payload, tx)) ==> membership_handlers::returned(selected)
            == seq![CoreAction::<C>::ReturnPayload { payload, tx }],
        selected.unused is None ==> membership_handlers::returned(selected).len() == 0,
{
}

/// A cluster is initialized on a node that holds no log and has not voted, with the given nodes as
/// the voters of one set and nobody else; on any other node the request is refused with what the
/// node holds.
pub proof fn only_a_fresh_node_is_initialized<C: RaftTypeConfig>(
    core: RaftCore<C>,
    members: Map<u64, C::Node>,
    tx: u64,
    actions: Seq<CoreAction<C>>,
)
    requires
        core.initialize_actions(members, tx, actions),
    ensures
        ({
            let st = core.engine.state;
            let vote = st.vote.vote;
            let fresh = st.last_log_id is None && vote.leader_id.term == 0 && vote.leader_id.node_id
                == 0 && !vote.committed;
            &&& actions.len() == 1
            &&& fresh ==> (actions[0] matches CoreAction::Initialize { membership, tx: answered }
                && answered == tx && membership@.configs.len() == 1
                && membership@.nodes == members && forall|id: u64|
                #[trigger] membership@.configs[0].contains(id) <==> members.contains_key(id))
            &&& !fresh ==> actions[0] == (CoreAction::<C>::Respond {
                when: None,
                resp: Response::Initialize(
                    Err(InitializeError::NotAllowed { last_log_id: st.last_log_id, vote }),
                ),
                tx,
            })
        }),
{
}

/// A node takes part in a transfer of the leadership only under the vote of the leader that hands
/// it over.  The lease of that leader ends on every such node.  The node that is named stands for
/// election exactly if its log holds all that the leader has; no other node does.
pub proof fn transfer_names_its_successor<C: RaftTypeConfig>(
    core: RaftCore<C>,
    from: Vote,
    to: u64,
    last_log_id: Option<LogId>,
)
    ensures
        ({
            let actions = core.transfer_leader_actions(from, to, last_log_id);
            let held = core.engine.state.vote.vote;
            let holds = last_log_id matches Some(wanted) ==> core.engine.state.last_log_id matches Some(
                got,
            ) && wanted.at_most(got);
            &&& held != from ==> actions.len() == 0
            &&& held == from ==> actions.len() > 0 && actions[0] == CoreAction::<C>::DisableLease
            &&& held == from && to == core.id && holds ==> actions.len() == 2 && actions[1]
                == CoreAction::<C>::ElectByTransfer
            &&& to != core.id || !holds ==> actions.len() <= 1
        }),
{
}

} // verus!
