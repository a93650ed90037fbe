//! Becoming the leader.

use vstd::prelude::*;
use crate::raft_core::state::{Candidate, Leader};

verus! {

/// Establishes a leader when a candidate has its votes.
#[derive(Clone, Copy, Debug, PartialEq, Eq, Structural)]
pub struct EstablishHandler {
    /// The node itself.
    pub id: u64,
}

impl EstablishHandler {
    /// Whether a candidate may lead: its vote must be greater than that of the present leader.
    pub open spec fn may_lead(present: Option<Leader>, candidate: Candidate) -> bool {
        match present {
            Some(l) => candidate.vote.exceeds(l.committed_vote),
            None => true,
        }
    }

    /// Establish the leader that a candidate turns into, and tell whether that was done.  A present
    /// leader whose vote is not less stays.
    ///
    /// A node can only commit its own vote, and the leader has the vote of the candidate as a
    /// committed one.
    pub fn establish(
        self,
        present: &mut Option<Leader>,
        candidate: Candidate,
        leader: Leader,
    ) -> (r: bool)
        requires
            candidate.vote.leader_id.node_id == self.id,
            leader.committed_vote == candidate.vote.as_committed(),
        ensures
            r == Self::may_lead(*old(present), candidate),
            *final(present) == (if r {
                Some(leader)
            } else {
                *old(present)
            }),
    {
        if let Some(l) = &*present {
            if !candidate.vote.is_greater_than(&l.committed_vote) {
                return false;
            }
        }
        *present = Some(leader);
        true
    }
}

/// The vote of the leader only grows: a leader that is established in place of another has a
/// greater vote.
pub proof fn leader_vote_grows(present: Leader, candidate: Candidate, leader: Leader)
    requires
        EstablishHandler::may_lead(Some(present), candidate),
        present.committed_vote.committed,
        leader.committed_vote == candidate.vote.as_committed(),
    ensures
        leader.committed_vote.exceeds(present.committed_vote),
{
}

/// A candidate takes over from nobody, from a leader of an earlier term, and in its own term from a
/// leader on a node before its own; it does not from a leader with a committed vote of its own or of
/// a later one.
pub proof fn greater_votes_take_over(present: Leader, candidate: Candidate)
    ensures
        EstablishHandler::may_lead(None, candidate),
        present.committed_vote.leader_id.term < candidate.vote.leader_id.term
            ==> EstablishHandler::may_lead(Some(present), candidate),
        present.committed_vote.leader_id.term == candidate.vote.leader_id.term
            && present.committed_vote.leader_id.node_id < candidate.vote.leader_id.node_id
            ==> EstablishHandler::may_lead(Some(present), candidate),
        present.committed_vote.leader_id == candidate.vote.leader_id
            && present.committed_vote.committed ==> !EstablishHandler::may_lead(
            Some(present),
            candidate,
        ),
        present.committed_vote.leader_id.term > candidate.vote.leader_id.term
            ==> !EstablishHandler::may_lead(Some(present), candidate),
{
}

/// A candidate that may lead is established as the given leader; a present leader that it may not
/// replace stays as it is.
pub proof fn establish_calls(
    h: EstablishHandler,
    present: &mut Option<Leader>,
    candidate: Candidate,
    leader: Leader,
    r: bool,
)
    requires
        call_ensures(EstablishHandler::establish, (h, present, candidate, leader), r),
    ensures
        r <==> EstablishHandler::may_lead(*old(present), candidate),
        r ==> *final(present) == Some(leader),
        !r ==> *final(present) == *old(present),
{
}

} // verus!
