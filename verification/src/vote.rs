//! Votes.

use vstd::prelude::*;
use vstd::string::*;
use crate::log_id::{log_id_texts_tell_log_ids_apart, LeaderId, LogId};
use crate::text;

verus! {

/// A vote for a leader.  It is committed once a quorum granted it.
///
/// Votes are ordered by leader id; of two votes for one leader the committed one is greater.
#[derive(Clone, Copy, Debug, Default, PartialEq, Eq, PartialOrd, Ord, Hash, Structural)]
pub struct Vote {
    pub leader_id: LeaderId,
    pub committed: bool,
}

impl Vote {
    /// A vote that no quorum has granted yet.
    pub fn new(term: u64, node_id: u64) -> (r: Vote)
        ensures
            r == (Vote { leader_id: LeaderId { term, node_id }, committed: false }),
    {
        Vote { leader_id: LeaderId { term, node_id }, committed: false }
    }

    /// A vote that a quorum has granted.
    pub fn new_committed(term: u64, node_id: u64) -> (r: Vote)
        ensures
            r == (Vote { leader_id: LeaderId { term, node_id }, committed: true }),
    {
        Vote { leader_id: LeaderId { term, node_id }, committed: true }
    }

    /// The first vote of a node: term 0, not committed.
    pub open spec fn initial(node_id: u64) -> Vote {
        Vote { leader_id: LeaderId { term: 0, node_id }, committed: false }
    }

    /// The first vote of a node: term 0, not committed.
    pub fn new_with_default_term(node_id: u64) -> (r: Vote)
        ensures
            r == Vote::initial(node_id),
    {
        Vote::new(0, node_id)
    }

    /// Whether a quorum has granted the vote.
    pub fn is_committed(&self) -> (r: bool)
        ensures
            r == self.committed,
    {
        self.committed
    }

    /// The same vote, granted by a quorum.
    pub open spec fn as_committed(self) -> Vote {
        Vote { leader_id: self.leader_id, committed: true }
    }

    /// The same vote, granted by a quorum.
    pub fn to_committed(&self) -> (r: Vote)
        ensures
            r == self.as_committed(),
    {
        Vote { leader_id: self.leader_id, committed: true }
    }

    /// The same vote, not granted by a quorum.
    pub open spec fn as_non_committed(self) -> Vote {
        Vote { leader_id: self.leader_id, committed: false }
    }

    /// The same vote, not granted by a quorum.
    pub fn to_non_committed(&self) -> (r: Vote)
        ensures
            r == self.as_non_committed(),
    {
        Vote { leader_id: self.leader_id, committed: false }
    }

    /// Whether this vote is strictly greater than `other`.
    pub open spec fn exceeds(self, other: Vote) -> bool {
        if self.leader_id == other.leader_id {
            self.committed && !other.committed
        } else {
            other.leader_id.at_most(self.leader_id)
        }
    }

    /// Whether this vote is strictly greater than `other`.
    pub fn is_greater_than(&self, other: &Vote) -> (r: bool)
        ensures
            r == self.exceeds(*other),
    {
        if self.leader_id == other.leader_id {
            self.committed && !other.committed
        } else {
            other.leader_id.is_at_most(&self.leader_id)
        }
    }

    /// `<T<term>-N<node>:Q>` for a committed vote, `<T<term>-N<node>:->` for another.
    pub open spec fn text(self) -> Seq<char> {
        "<"@ + self.leader_id.text() + (if self.committed {
            ":Q>"@
        } else {
            ":->"@
        })
    }

    /// `<T<term>-N<node>:Q>` for a committed vote, `<T<term>-N<node>:->` for another.
    pub fn to_string(&self) -> (r: String)
        ensures
            r@ == self.text(),
    {
        let l = self.leader_id.to_string();
        "<".to_owned().concat(l.as_str()).concat(if self.committed {
            ":Q>"
        } else {
            ":->"
        })
    }
}

/// Votes are strictly ordered: none exceeds itself, of two different votes exactly one exceeds
/// the other, and exceeding is transitive.
pub proof fn vote_order_is_strict(a: Vote, b: Vote, c: Vote)
    ensures
        !a.exceeds(a),
        a != b ==> (a.exceeds(b) <==> !b.exceeds(a)),
        a.exceeds(b) && b.exceeds(c) ==> a.exceeds(c),
{
}

/// What a write to the log store stores: a vote, or the log up to a log id under a committed
/// vote.
#[derive(Clone, Copy, Debug, PartialEq, Eq, Structural)]
pub enum IOId {
    Vote(Vote),
    Log { committed_vote: Vote, log_id: Option<LogId> },
}

impl IOId {
    /// The write that stores a vote: for a committed vote, the empty log under it.
    pub open spec fn of_vote(vote: Vote) -> IOId {
        if vote.committed {
            IOId::Log { committed_vote: vote, log_id: None }
        } else {
            IOId::Vote(vote)
        }
    }

    /// The write that stores a vote: for a committed vote, the empty log under it.
    pub fn new(vote: &Vote) -> (r: IOId)
        ensures
            r == IOId::of_vote(*vote),
    {
        if vote.committed {
            IOId::Log { committed_vote: *vote, log_id: None }
        } else {
            IOId::Vote(*vote)
        }
    }

    /// The vote under which the write is made.
    pub open spec fn vote_of(self) -> Vote {
        match self {
            IOId::Vote(v) => v,
            IOId::Log { committed_vote, .. } => committed_vote,
        }
    }

    /// The vote under which the write is made.
    pub fn to_app_vote(&self) -> (r: Vote)
        ensures
            r == self.vote_of(),
    {
        match self {
            IOId::Vote(v) => *v,
            IOId::Log { committed_vote, .. } => *committed_vote,
        }
    }
}

/// A vote of a later term is greater, and in one term that of a later node, whether a quorum has
/// granted it or not.  Of two votes for one leader the granted one is greater.
pub proof fn later_votes_are_greater(a: Vote, b: Vote)
    ensures
        a.leader_id.term > b.leader_id.term ==> a.exceeds(b) && !b.exceeds(a),
        a.leader_id.term == b.leader_id.term && a.leader_id.node_id > b.leader_id.node_id
            ==> a.exceeds(b) && !b.exceeds(a),
        a.leader_id.term == b.leader_id.term && a.leader_id.node_id == b.leader_id.node_id ==> (
        a.exceeds(b) <==> a.committed && !b.committed),
{
}

/// Granting a vote, or taking the grant back, keeps its leader; the one undoes the other.  The first
/// vote of a node is for itself in term 0, and granted by nobody.
pub proof fn granting_keeps_the_leader(v: Vote, node_id: u64)
    ensures
        v.as_committed().committed,
        v.as_committed().leader_id == v.leader_id,
        !v.as_non_committed().committed,
        v.as_non_committed().leader_id == v.leader_id,
        v.committed ==> v.as_non_committed().as_committed() == v,
        !v.committed ==> v.as_committed().as_non_committed() == v,
        Vote::initial(node_id).leader_id.term == 0,
        Vote::initial(node_id).leader_id.node_id == node_id,
        !Vote::initial(node_id).committed,
{
}

/// The write of a vote is made under that vote.  Under a committed vote it counts as a write of the
/// log that stores nothing yet.
pub proof fn vote_is_written_under_itself(v: Vote)
    ensures
        IOId::of_vote(v).vote_of() == v,
        IOId::of_vote(v) is Vote <==> !v.committed,
        IOId::of_vote(v) matches IOId::Log { committed_vote, log_id } ==> committed_vote == v
            && log_id is None,
{
}

/// Votes can be told apart by their texts.
pub proof fn vote_texts_tell_votes_apart(a: Vote, b: Vote)
    ensures
        a.text() == b.text() ==> a == b,
{
    reveal_strlit("<");
    reveal_strlit(":Q>");
    reveal_strlit(":->");
    assert('0' as int == 48 && '9' as int == 57 && ':' as int == 58);
    if a.text() == b.text() {
        let sa = if a.committed {
            ":Q>"@
        } else {
            ":->"@
        };
        let sb = if b.committed {
            ":Q>"@
        } else {
            ":->"@
        };
        assert(a.text().skip(1) =~= a.leader_id.text() + sa);
        assert(b.text().skip(1) =~= b.leader_id.text() + sb);
        log_id_texts_tell_log_ids_apart(
            LogId { leader_id: a.leader_id, index: 0 },
            LogId { leader_id: b.leader_id, index: 0 },
            sa,
            sb,
        );
        assert(sa[1] == sb[1]);
    }
}

} // verus!
