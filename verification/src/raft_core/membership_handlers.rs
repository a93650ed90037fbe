//! The handlers of membership changes.

use std::collections::BTreeMap;
use vstd::prelude::*;
use crate::batch::Batch;
use crate::entry::RaftPayload;
use crate::errors::{ChangeMembershipError, ClientWriteError, InitializeError};
use crate::log_id;
use crate::membership::{ChangeMembers, Membership, MembershipView};
use crate::raft_core::action::{Condition, CoreAction, Response};
use crate::raft_core::handlers::RaftCore;
use crate::raft_core::raft_msg::{MembershipPayloads, SelectedPayload};
use crate::raft_core::state::{Leader, MembershipState, Precondition, RaftState};
use crate::raft_core::state;
use crate::sets;
use crate::type_config::RaftTypeConfig;
use crate::vote::Vote;

verus! {

/// Why a membership state proposes no membership, if it does not.
pub open spec fn proposal_refused<N>(
    membership_state: MembershipState<N>,
    changes: ChangeMembers<N>,
    retain: bool,
    e: ChangeMembershipError,
) -> bool {
    let p = changes.proposed(membership_state.effective.membership@, retain);
    if membership_state.committed.log_id != membership_state.effective.log_id {
        e == (ChangeMembershipError::InProgress {
            committed: membership_state.committed.log_id,
            membership_log_id: membership_state.effective.log_id,
        })
    } else if !p.no_empty_config() {
        e == ChangeMembershipError::EmptyMembership
    } else {
        &&& e matches ChangeMembershipError::LearnerNotFound { node_id }
        &&& p.voters().contains(node_id)
        &&& !p.nodes.contains_key(node_id)
    }
}

/// Whether a membership state proposes a membership.
pub open spec fn proposal_made<N>(
    membership_state: MembershipState<N>,
    changes: ChangeMembers<N>,
    retain: bool,
) -> bool {
    &&& membership_state.committed.log_id == membership_state.effective.log_id
    &&& changes.proposed(membership_state.effective.membership@, retain).valid()
}

/// Whether `selected` is the payload of a membership with the given voters and nodes.
pub open spec fn carries<C: RaftTypeConfig>(
    payloads: MembershipPayloads<C>,
    proposed: MembershipView<C::Node>,
    selected: SelectedPayload<C>,
) -> bool {
    exists|m: Membership<C::Node>|
        m@ == proposed && #[trigger] payloads.selected(m) == selected
}

/// Compute the membership that a change proposes and put it into the payload that goes with it.
pub fn apply_membership_to_payload<C: RaftTypeConfig>(
    membership_state: &MembershipState<C::Node>,
    changes: ChangeMembers<C::Node>,
    retain: bool,
    payloads: MembershipPayloads<C>,
) -> (r: Result<SelectedPayload<C>, ChangeMembershipError>)
    requires
        membership_state.effective.membership@.configs.len() > 0,
    ensures
        r is Ok <==> proposal_made(*membership_state, changes, retain),
        match r {
            Ok(selected) => carries(
                payloads,
                changes.proposed(membership_state.effective.membership@, retain),
                selected,
            ),
            Err(e) => proposal_refused(*membership_state, changes, retain, e),
        },
{
    let ghost proposed = changes.proposed(membership_state.effective.membership@, retain);
    match membership_state.next_membership(changes, retain) {
        Ok(membership) => {
            let selected = payloads.select(membership);
            proof {
                assert(membership@ == proposed && payloads.selected(membership) == selected);
            }
            Ok(selected)
        },
        Err(e) => Err(e),
    }
}

/// Sending back the payload that was not used.
pub open spec fn returned<C: RaftTypeConfig>(selected: SelectedPayload<C>) -> Seq<CoreAction<C>> {
    match selected.unused {
        Some((payload, tx)) => seq![CoreAction::ReturnPayload { payload, tx }],
        None => Seq::empty(),
    }
}

/// Refusing a write.
pub open spec fn refused<C: RaftTypeConfig>(
    tx: u64,
    error: ClientWriteError<C::Node>,
) -> Seq<CoreAction<C>> {
    seq![CoreAction::FailWrite { tx, error }]
}

/// Whether the leader has committed a log entry of its own term.
pub open spec fn leader_log_committed<N>(
    state: RaftState<N>,
    leader: Leader,
) -> Result<(), ChangeMembershipError> {
    if log_id::opt_at_most(Some(leader.noop_log_id), state.cluster_committed) {
        Ok(())
    } else {
        Err(
            ChangeMembershipError::UncommittedLeaderLog {
                committed: state.cluster_committed,
                leader_log_id: leader.noop_log_id,
            },
        )
    }
}

/// Ensure the leader has committed a log entry of its own term.
///
/// A membership that is appended as it is needs this barrier on top of a valid lease: without it,
/// two memberships that were proposed in different terms from the same parent can both become
/// committed, even where their quorums do not intersect.
pub fn ensure_leader_log_committed<N>(state: &RaftState<N>, leader: &Leader) -> (r: Result<
    (),
    ChangeMembershipError,
>)
    ensures
        r == leader_log_committed(*state, *leader),
{
    if log_id::opt_is_at_most(&Some(leader.noop_log_id), &state.cluster_committed) {
        Ok(())
    } else {
        Err(
            ChangeMembershipError::UncommittedLeaderLog {
                committed: state.cluster_committed,
                leader_log_id: leader.noop_log_id,
            },
        )
    }
}

/// The membership whose voters are the given nodes.
pub open spec fn initial_membership<N>(members: Map<u64, N>) -> MembershipView<N> {
    MembershipView { configs: seq![members.dom()], nodes: members }
}

impl<C: RaftTypeConfig> RaftCore<C> {
    /// The actions of a membership change.
    pub open spec fn change_membership_actions(
        self,
        changes: ChangeMembers<C::Node>,
        retain: bool,
        preconditions: Seq<Precondition>,
        payloads: MembershipPayloads<C>,
        tx: u64,
        actions: Seq<CoreAction<C>>,
    ) -> bool {
        let ms = self.engine.state.membership_state;
        match self.leading() {
            Err(forward) => actions =~= refused::<C>(
                tx,
                ClientWriteError::ForwardToLeader(forward),
            ),
            Ok(()) => match state::check_all(preconditions, ms.effective.log_id) {
                Err(e) => actions =~= refused::<C>(tx, ClientWriteError::PreconditionFailed(e)),
                Ok(()) => if proposal_made(ms, changes, retain) {
                    exists|selected: SelectedPayload<C>|
                        carries(
                            payloads,
                            changes.proposed(ms.effective.membership@, retain),
                            selected,
                        ) && actions =~= #[trigger] returned(selected) + self.write_actions(
                            Batch::One(selected.payload),
                            Batch::One(Some(tx)),
                        )
                } else {
                    exists|e: ChangeMembershipError| #[trigger]
                        proposal_refused(ms, changes, retain, e) && actions =~= refused::<C>(
                            tx,
                            ClientWriteError::ChangeMembershipError(e),
                        )
                },
            },
        }
    }

    /// Submit a membership change by writing a membership log entry.
    ///
    /// With `retain`, a voter that leaves becomes a learner; without, it is removed.  A change of
    /// the voters goes through a joint membership; where the membership is joint already, the
    /// uniform one follows.  The previous membership must be committed.
    pub fn change_membership(
        &self,
        changes: ChangeMembers<C::Node>,
        retain: bool,
        preconditions: Vec<Precondition>,
        payloads: MembershipPayloads<C>,
        tx: u64,
    ) -> (r: Vec<CoreAction<C>>)
        requires
            self.leading() is Ok
                ==> self.engine.state.membership_state.effective.membership@.configs.len() > 0,
        ensures
            self.change_membership_actions(changes, retain, preconditions@, payloads, tx, r@),
    {
        match self.ensure_leader_handler() {
            Ok(_) => {},
            Err(forward) => {
                return vec![CoreAction::FailWrite {
                    tx,
                    error: ClientWriteError::ForwardToLeader(forward),
                }];
            },
        }
        match self.engine.state.ensure_preconditions_satisfied(&preconditions) {
            Ok(()) => {},
            Err(e) => {
                return vec![CoreAction::FailWrite {
                    tx,
                    error: ClientWriteError::PreconditionFailed(e),
                }];
            },
        }
        let res = apply_membership_to_payload::<C>(
            &self.engine.state.membership_state,
            changes,
            retain,
            payloads,
        );
        match res {
            Ok(selected) => {
                let ghost sel = selected;
                let mut actions: Vec<CoreAction<C>> = Vec::new();
                let SelectedPayload { payload, unused } = selected;
                match unused {
                    Some((p, unused_tx)) => {
                        actions.push(CoreAction::ReturnPayload { payload: p, tx: unused_tx });
                    },
                    None => {},
                }
                let mut write = self.write_entries(Batch::One(payload), Batch::One(Some(tx)));
                actions.append(&mut write);
                proof {
                    assert(actions@ =~= returned(sel) + self.write_actions(
                        Batch::One(sel.payload),
                        Batch::One(Some(tx)),
                    ));
                }
                actions
            },
            Err(e) => {
                let r = vec![CoreAction::FailWrite {
                    tx,
                    error: ClientWriteError::ChangeMembershipError(e),
                }];
                proof {
                    assert(proposal_refused(
                        self.engine.state.membership_state,
                        changes,
                        retain,
                        e,
                    ));
                    assert(r@ =~= refused::<C>(tx, ClientWriteError::ChangeMembershipError(e)));
                }
                r
            },
        }
    }

    /// The actions of appending a membership.
    pub open spec fn append_membership_actions(
        self,
        payload: C::Payload,
        preconditions: Seq<Precondition>,
        validation: Result<(), ChangeMembershipError>,
        tx: u64,
    ) -> Seq<CoreAction<C>> {
        let st = self.engine.state;
        match self.writable() {
            Err(forward) => refused::<C>(tx, ClientWriteError::ForwardToLeader(forward)),
            Ok(()) => match state::check_all(preconditions, st.membership_state.effective.log_id) {
                Err(e) => refused::<C>(tx, ClientWriteError::PreconditionFailed(e)),
                Ok(()) => match leader_log_committed(st, self.engine.leader->0) {
                    Err(e) => refused::<C>(tx, ClientWriteError::ChangeMembershipError(e)),
                    Ok(()) => match validation {
                        Err(e) => refused::<C>(tx, ClientWriteError::ChangeMembershipError(e)),
                        Ok(()) => self.write_actions(Batch::One(payload), Batch::One(Some(tx))),
                    },
                },
            },
        }
    }

    /// Append a membership that the caller put into a payload, as one log entry.
    ///
    /// `validation` tells whether the membership state admits the membership in the payload.  The
    /// preconditions are checked before anything else, so that a caller with a stale membership
    /// learns that it is stale instead of being told to retry.
    pub fn append_membership(
        &self,
        payload: C::Payload,
        preconditions: Vec<Precondition>,
        validation: Result<(), ChangeMembershipError>,
        tx: u64,
    ) -> (r: Vec<CoreAction<C>>)
        requires
            payload.membership_spec() is Some,
        ensures
            r@ == self.append_membership_actions(payload, preconditions@, validation, tx),
    {
        let leader = match self.ensure_writable_leader_handler() {
            Ok(l) => l,
            Err(forward) => {
                return vec![CoreAction::FailWrite {
                    tx,
                    error: ClientWriteError::ForwardToLeader(forward),
                }];
            },
        };
        let committed = ensure_leader_log_committed(&self.engine.state, leader);
        match self.engine.state.ensure_preconditions_satisfied(&preconditions) {
            Ok(()) => {},
            Err(e) => {
                return vec![CoreAction::FailWrite {
                    tx,
                    error: ClientWriteError::PreconditionFailed(e),
                }];
            },
        }
        match committed {
            Ok(()) => {},
            Err(e) => {
                return vec![CoreAction::FailWrite {
                    tx,
                    error: ClientWriteError::ChangeMembershipError(e),
                }];
            },
        }
        match validation {
            Ok(()) => self.write_entries(Batch::One(payload), Batch::One(Some(tx))),
            Err(e) => vec![CoreAction::FailWrite {
                tx,
                error: ClientWriteError::ChangeMembershipError(e),
            }],
        }
    }

    /// Handle the request to initialize the cluster: the engine is asked to, and hands its answer
    /// to [`initialized`](RaftCore::initialized).
    ///
    /// A node may be initialized only if its log is empty and it has not voted.
    pub fn handle_initialize(&self, members: BTreeMap<u64, C::Node>, tx: u64) -> (r: Vec<
        CoreAction<C>,
    >)
        ensures
            self.initialize_actions(members@, tx, r@),
    {
        let st = &self.engine.state;
        let vote = st.vote.vote;
        if !(st.last_log_id.is_none() && vote == Vote::new_with_default_term(0)) {
            return vec![CoreAction::Respond {
                when: None,
                resp: Response::Initialize(
                    Err(InitializeError::NotAllowed { last_log_id: st.last_log_id, vote }),
                ),
                tx,
            }];
        }
        let keys = sets::map_keys(&members);
        let voters = sets::set_of(&keys);
        let membership = Membership { configs: vec![voters], nodes: members };
        proof {
            assert(membership@.configs =~= seq![members@.dom()]);
            assert(membership@ =~= initial_membership(members@));
        }
        let r = vec![CoreAction::Initialize { membership, tx }];
        assert(r@ =~= seq![CoreAction::<C>::Initialize { membership, tx }]);
        r
    }

    /// The actions of a request to initialize the cluster.
    pub open spec fn initialize_actions(
        self,
        members: Map<u64, C::Node>,
        tx: u64,
        actions: Seq<CoreAction<C>>,
    ) -> bool {
        let st = self.engine.state;
        if st.last_log_id is None && st.vote.vote == Vote::initial(0) {
            exists|m: Membership<C::Node>|
                #![trigger m@]
                m@ == initial_membership(members) && actions =~= seq![
                    CoreAction::<C>::Initialize { membership: m, tx },
                ]
        } else {
            actions =~= seq![
                CoreAction::<C>::Respond {
                    when: None,
                    resp: Response::Initialize(
                        Err(
                            InitializeError::NotAllowed {
                                last_log_id: st.last_log_id,
                                vote: st.vote.vote,
                            },
                        ),
                    ),
                    tx,
                },
            ]
        }
    }

    /// The engine has answered a request to initialize the cluster.
    ///
    /// An error is answered at once.  A success is answered when the writes that were accepted for
    /// it are flushed, not when they are applied: that takes a leader, and the first one may not
    /// come.  After a success this node stands for election.
    pub fn initialized(&self, result: Result<(), InitializeError>, tx: u64) -> (r: Vec<
        CoreAction<C>,
    >)
        ensures
            r@ == (match result {
                Err(_) => seq![
                    CoreAction::<C>::Respond { when: None, resp: Response::Initialize(result), tx },
                ],
                Ok(()) => seq![
                    CoreAction::<C>::Respond {
                        when: match self.engine.state.log_progress.accepted {
                            Some(io_id) => Some(Condition::IOFlushed { io_id }),
                            None => None,
                        },
                        resp: Response::Initialize(result),
                        tx,
                    },
                    CoreAction::<C>::Elect,
                ],
            }),
    {
        match result {
            Err(_) => vec![
                CoreAction::Respond { when: None, resp: Response::Initialize(result), tx },
            ],
            Ok(()) => {
                let when = match self.engine.state.log_progress.accepted {
                    Some(io_id) => Some(Condition::IOFlushed { io_id }),
                    None => None,
                };
                vec![
                    CoreAction::Respond { when, resp: Response::Initialize(result), tx },
                    CoreAction::Elect,
                ]
            },
        }
    }
}

} // verus!
