//! Leader ids, log ids and log indexes.

use vstd::prelude::*;
use crate::text;
use vstd::string::*;

verus! {

/// The id of a leader: a term and the node that leads in it.
///
/// Leader ids are ordered by term first, then by node.
#[derive(Clone, Copy, Debug, Default, PartialEq, Eq, PartialOrd, Ord, Hash, Structural)]
pub struct LeaderId {
    pub term: u64,
    pub node_id: u64,
}

impl LeaderId {
    /// The order of leader ids.
    pub open spec fn at_most(self, other: LeaderId) -> bool {
        self.term < other.term || (self.term == other.term && self.node_id <= other.node_id)
    }

    /// Whether this leader id is less than or equal to `other`.
    pub fn is_at_most(&self, other: &LeaderId) -> (r: bool)
        ensures
            r == self.at_most(*other),
    {
        self.term < other.term || (self.term == other.term && self.node_id <= other.node_id)
    }

    /// `T<term>-N<node>`.
    pub open spec fn text(self) -> Seq<char> {
        "T"@ + text::decimal(self.term as nat) + "-N"@ + text::decimal(self.node_id as nat)
    }

    /// `T<term>-N<node>`.
    pub fn to_string(&self) -> (r: String)
        ensures
            r@ == self.text(),
    {
        let t = text::u64_text(self.term);
        let n = text::u64_text(self.node_id);
        "T".to_owned().concat(t.as_str()).concat("-N").concat(n.as_str())
    }
}

/// The id of a log entry: the leader that proposed it and its index.
///
/// Log ids are ordered by leader id first, then by index.
#[derive(Clone, Copy, Debug, Default, PartialEq, Eq, PartialOrd, Ord, Hash, Structural)]
pub struct LogId {
    pub leader_id: LeaderId,
    pub index: u64,
}

impl LogId {
    /// A log id of its two parts.
    pub fn new(leader_id: LeaderId, index: u64) -> (r: LogId)
        ensures
            r == (LogId { leader_id, index }),
    {
        LogId { leader_id, index }
    }

    /// The order of log ids.
    pub open spec fn at_most(self, other: LogId) -> bool {
        if self.leader_id == other.leader_id {
            self.index <= other.index
        } else {
            self.leader_id.at_most(other.leader_id)
        }
    }

    /// Whether this log id is less than or equal to `other`.
    pub fn is_at_most(&self, other: &LogId) -> (r: bool)
        ensures
            r == self.at_most(*other),
    {
        if self.leader_id == other.leader_id {
            self.index <= other.index
        } else {
            self.leader_id.is_at_most(&other.leader_id)
        }
    }

    /// `T<term>-N<node>.<index>`.
    pub open spec fn text(self) -> Seq<char> {
        self.leader_id.text() + "."@ + text::decimal(self.index as nat)
    }

    /// `T<term>-N<node>.<index>`.
    pub fn to_string(&self) -> (r: String)
        ensures
            r@ == self.text(),
    {
        let i = text::u64_text(self.index);
        self.leader_id.to_string().concat(".").concat(i.as_str())
    }
}

impl LogId {
    /// The log id with its fields, as a programmer would write it.
    pub open spec fn debug_spec(self) -> Seq<char> {
        "LogId { leader_id: LeaderId { term: "@ + text::decimal(self.leader_id.term as nat)
            + ", node_id: "@ + text::decimal(self.leader_id.node_id as nat) + " }, index: "@
            + text::decimal(self.index as nat) + " }"@
    }

    /// The log id with its fields, as a programmer would write it.
    pub fn debug_text(&self) -> (r: String)
        ensures
            r@ == self.debug_spec(),
    {
        let t = text::u64_text(self.leader_id.term);
        let n = text::u64_text(self.leader_id.node_id);
        let i = text::u64_text(self.index);
        "LogId { leader_id: LeaderId { term: ".to_owned().concat(t.as_str()).concat(
            ", node_id: ",
        ).concat(n.as_str()).concat(" }, index: ").concat(i.as_str()).concat(" }")
    }
}

/// An optional log id with its fields, as a programmer would write it.
pub open spec fn opt_debug_spec(id: Option<LogId>) -> Seq<char> {
    match id {
        Some(l) => "Some("@ + l.debug_spec() + ")"@,
        None => "None"@,
    }
}

/// An optional log id with its fields, as a programmer would write it.
pub fn opt_debug_text(id: &Option<LogId>) -> (r: String)
    ensures
        r@ == opt_debug_spec(*id),
{
    match id {
        Some(l) => "Some(".to_owned().concat(l.debug_text().as_str()).concat(")"),
        None => "None".to_owned(),
    }
}

/// The order of optional log ids: `None` comes first.
pub open spec fn opt_at_most(a: Option<LogId>, b: Option<LogId>) -> bool {
    match (a, b) {
        (None, _) => true,
        (Some(_), None) => false,
        (Some(x), Some(y)) => x.at_most(y),
    }
}

/// Whether `a` is less than or equal to `b`, where `None` comes first.
pub fn opt_is_at_most(a: &Option<LogId>, b: &Option<LogId>) -> (r: bool)
    ensures
        r == opt_at_most(*a, *b),
{
    match a {
        None => true,
        Some(x) => match b {
            None => false,
            Some(y) => x.is_at_most(y),
        },
    }
}

/// The index of an optional log id.
pub open spec fn index_of(id: Option<LogId>) -> Option<u64> {
    match id {
        Some(l) => Some(l.index),
        None => None,
    }
}

/// The index of an optional log id.
pub fn opt_index(id: &Option<LogId>) -> (r: Option<u64>)
    ensures
        r == index_of(*id),
{
    match id {
        Some(l) => Some(l.index),
        None => None,
    }
}

/// The text of an optional log id, `"None"` without one.
pub open spec fn opt_log_id_spec(id: Option<LogId>) -> Seq<char> {
    match id {
        Some(l) => l.text(),
        None => "None"@,
    }
}

/// The text of an optional log id, `"None"` without one.
pub fn opt_log_id_text(id: &Option<LogId>) -> (r: String)
    ensures
        r@ == opt_log_id_spec(*id),
{
    match id {
        Some(l) => l.to_string(),
        None => "None".to_owned(),
    }
}

/// The order of log ids is total: it is reflexive, antisymmetric and transitive, and of two log
/// ids one is less than or equal to the other.
pub proof fn log_id_order_is_total(a: Option<LogId>, b: Option<LogId>, c: Option<LogId>)
    ensures
        opt_at_most(a, a),
        opt_at_most(a, b) || opt_at_most(b, a),
        opt_at_most(a, b) && opt_at_most(b, a) ==> a == b,
        opt_at_most(a, b) && opt_at_most(b, c) ==> opt_at_most(a, c),
{
}

/// What an optional log index tells of its neighbours.
pub trait LogIndexOptionExt: Sized {
    /// The index after an optional one: 0 after `None`.
    spec fn next_index_spec(&self) -> int;

    /// Whether there is an index.
    spec fn has_index(&self) -> bool;

    /// The index before an index: `None` before 0.
    spec fn prev_index_spec(&self) -> Self;

    /// The next log index, 0 after `None`.
    fn next_index(&self) -> (r: u64)
        requires
            self.next_index_spec() <= u64::MAX,
        ensures
            r == self.next_index_spec(),
    ;

    /// The previous log index, `None` before 0.  There must be an index.
    fn prev_index(&self) -> (r: Self)
        requires
            self.has_index(),
        ensures
            r == self.prev_index_spec(),
    ;
}

impl LogIndexOptionExt for Option<u64> {
    open spec fn next_index_spec(&self) -> int {
        match self {
            None => 0,
            Some(v) => v + 1,
        }
    }

    open spec fn has_index(&self) -> bool {
        *self is Some
    }

    open spec fn prev_index_spec(&self) -> Option<u64> {
        match self {
            None => None,
            Some(v) => if *v == 0 {
                None
            } else {
                Some((v - 1) as u64)
            },
        }
    }

    fn next_index(&self) -> (r: u64) {
        match self {
            None => 0,
            Some(v) => *v + 1,
        }
    }

    fn prev_index(&self) -> (r: Option<u64>) {
        match self {
            None => None,
            Some(v) => v.checked_sub(1),
        }
    }
}

/// The index before the next one is the index itself.
pub proof fn prev_of_next_index(i: Option<u64>)
    requires
        i.next_index_spec() <= u64::MAX,
    ensures
        Some(i.next_index_spec() as u64).has_index(),
        Some(i.next_index_spec() as u64).prev_index_spec() == i,
{
}

/// Leader ids compare by their terms, and by their nodes within a term.
pub proof fn later_terms_come_later(a: LeaderId, b: LeaderId)
    ensures
        a.term < b.term ==> a.at_most(b) && !b.at_most(a),
        a.term == b.term && a.node_id < b.node_id ==> a.at_most(b) && !b.at_most(a),
        a.term == b.term && a.node_id == b.node_id ==> a.at_most(b) && b.at_most(a),
{
}

/// Log ids compare by their leaders first: an entry of a later term, or of a later node in the same
/// term, comes later whatever its index is.  Entries of one leader compare by their indexes.  No log
/// id comes before every log id.
pub proof fn later_leaders_come_later(a: LogId, b: LogId)
    ensures
        a.leader_id.term < b.leader_id.term ==> a.at_most(b) && !b.at_most(a),
        a.leader_id.term == b.leader_id.term && a.leader_id.node_id < b.leader_id.node_id
            ==> a.at_most(b) && !b.at_most(a),
        a.leader_id.term == b.leader_id.term && a.leader_id.node_id == b.leader_id.node_id ==> (
        a.at_most(b) <==> a.index <= b.index),
        opt_at_most(Some(a), Some(b)) <==> a.at_most(b),
        opt_at_most(None, Some(a)),
        opt_at_most(None, None),
        !opt_at_most(Some(a), None),
{
}

/// The index of a log id is its own; without a log id there is none.
pub proof fn log_ids_carry_their_index(id: LogId)
    ensures
        index_of(Some(id)) == Some(id.index),
        index_of(None) is None,
{
}

/// Indexes count up from 0: the first follows none, every other one the index before it.
pub proof fn indexes_count_up(i: u64)
    ensures
        None::<u64>.next_index_spec() == 0,
        Some(i).next_index_spec() == i + 1,
        Some(0u64).prev_index_spec() is None,
        i > 0 ==> (Some(i).prev_index_spec() matches Some(p) && p == i - 1),
        Some(i).has_index(),
        !None::<u64>.has_index(),
{
}

/// Leaders, and entries of the log, can be told apart by their texts.
pub proof fn log_id_texts_tell_log_ids_apart(a: LogId, b: LogId, s: Seq<char>, t: Seq<char>)
    requires
        s.len() > 0 ==> !('0' <= s[0] <= '9'),
        t.len() > 0 ==> !('0' <= t[0] <= '9'),
    ensures
        a.leader_id.text() + s == b.leader_id.text() + t ==> a.leader_id == b.leader_id && s == t,
        a.text() + s == b.text() + t ==> a == b && s == t,
{
    lemma_leader_text(a.leader_id, s, b.leader_id, t);
    reveal_strlit(".");
    assert('0' as int == 48 && '.' as int == 46);
    let ra = "."@ + text::decimal(a.index as nat) + s;
    let rb = "."@ + text::decimal(b.index as nat) + t;
    assert(a.text() + s =~= a.leader_id.text() + ra);
    assert(b.text() + t =~= b.leader_id.text() + rb);
    assert(ra[0] == '.' && rb[0] == '.');
    lemma_leader_text(a.leader_id, ra, b.leader_id, rb);
    if a.text() + s == b.text() + t {
        assert(ra.skip(1) =~= text::decimal(a.index as nat) + s);
        assert(rb.skip(1) =~= text::decimal(b.index as nat) + t);
        text::decimals_end_with_their_digits(a.index as nat, s, b.index as nat, t);
    }
}

proof fn lemma_leader_text(a: LeaderId, s: Seq<char>, b: LeaderId, t: Seq<char>)
    requires
        s.len() > 0 ==> !('0' <= s[0] <= '9'),
        t.len() > 0 ==> !('0' <= t[0] <= '9'),
    ensures
        a.text() + s == b.text() + t ==> a == b && s == t,
{
    reveal_strlit("T");
    reveal_strlit("-N");
    assert('0' as int == 48 && '-' as int == 45);
    if a.text() + s == b.text() + t {
        let na = text::decimal(a.node_id as nat) + s;
        let nb = text::decimal(b.node_id as nat) + t;
        let ra = "-N"@ + na;
        let rb = "-N"@ + nb;
        assert((a.text() + s).skip(1) =~= text::decimal(a.term as nat) + ra);
        assert((b.text() + t).skip(1) =~= text::decimal(b.term as nat) + rb);
        assert(ra[0] == '-' && rb[0] == '-');
        text::decimals_end_with_their_digits(a.term as nat, ra, b.term as nat, rb);
        assert(ra.skip(2) =~= na);
        assert(rb.skip(2) =~= nb);
        text::decimals_end_with_their_digits(a.node_id as nat, s, b.node_id as nat, t);
    }
}

/// No log id is written as a word, and no log id has that word as its text.
pub proof fn missing_log_ids_have_a_text(id: LogId)
    ensures
        opt_log_id_spec(None) == "None"@,
        opt_log_id_spec(Some(id)) == id.text(),
        opt_log_id_spec(Some(id)) != opt_log_id_spec(None),
        opt_debug_spec(None) == "None"@,
        opt_debug_spec(Some(id)) == "Some("@ + id.debug_spec() + ")"@,
{
    reveal_strlit("None");
    reveal_strlit("T");
    assert(id.text()[0] == 'T');
    assert("None"@[0] == 'N');
}

/// Optional log ids can be told apart by their texts.
pub proof fn optional_log_ids_are_told_apart(a: Option<LogId>, b: Option<LogId>)
    ensures
        opt_log_id_spec(a) == opt_log_id_spec(b) ==> a == b,
{
    if let Some(x) = a {
        missing_log_ids_have_a_text(x);
        if let Some(y) = b {
            log_id_texts_tell_log_ids_apart(x, y, Seq::empty(), Seq::empty());
            assert(x.text() + Seq::<char>::empty() =~= x.text());
            assert(y.text() + Seq::<char>::empty() =~= y.text());
        }
    } else if let Some(y) = b {
        missing_log_ids_have_a_text(y);
    }
}

} // verus!
