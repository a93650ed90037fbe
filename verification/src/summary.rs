//! Short texts of messages.

use vstd::prelude::*;
use vstd::string::*;
use crate::errors::{Elapsed, ErrorVerb, HigherVote, NodeNotFound, StorageError};
use crate::log_id::{LeaderId, LogId};
use crate::message::{VoteRequest, VoteResponse};
use crate::raft_core::heartbeat::HeartbeatWorker;
use crate::raft_core::notification::ApplyResult;
use crate::raft_core::replication::DisplayVecProgress;
use crate::testing::memstore::ClientRequest;
use crate::text;
use crate::type_config::RaftTypeConfig;
use crate::vote::Vote;

verus! {

/// A message with a short text.
pub trait MessageSummary {
    /// The text.
    spec fn summary_spec(&self) -> Seq<char>;

    /// The text.
    fn summary(&self) -> (r: String)
        ensures
            r@ == self.summary_spec(),
    ;
}

impl MessageSummary for LeaderId {
    open spec fn summary_spec(&self) -> Seq<char> {
        self.text()
    }

    fn summary(&self) -> (r: String) {
        self.to_string()
    }
}

impl MessageSummary for LogId {
    open spec fn summary_spec(&self) -> Seq<char> {
        self.text()
    }

    fn summary(&self) -> (r: String) {
        self.to_string()
    }
}

impl MessageSummary for Vote {
    open spec fn summary_spec(&self) -> Seq<char> {
        self.text()
    }

    fn summary(&self) -> (r: String) {
        self.to_string()
    }
}

impl MessageSummary for VoteRequest {
    open spec fn summary_spec(&self) -> Seq<char> {
        self.text()
    }

    fn summary(&self) -> (r: String) {
        self.to_string()
    }
}

impl MessageSummary for VoteResponse {
    open spec fn summary_spec(&self) -> Seq<char> {
        self.text()
    }

    fn summary(&self) -> (r: String) {
        self.to_string()
    }
}

impl MessageSummary for NodeNotFound {
    open spec fn summary_spec(&self) -> Seq<char> {
        self.text()
    }

    fn summary(&self) -> (r: String) {
        self.to_string()
    }
}

impl MessageSummary for HigherVote {
    open spec fn summary_spec(&self) -> Seq<char> {
        self.text()
    }

    fn summary(&self) -> (r: String) {
        self.to_string()
    }
}

impl MessageSummary for ErrorVerb {
    open spec fn summary_spec(&self) -> Seq<char> {
        self.text()
    }

    fn summary(&self) -> (r: String) {
        self.to_string()
    }
}

impl<C: RaftTypeConfig> MessageSummary for StorageError<C> {
    open spec fn summary_spec(&self) -> Seq<char> {
        self.text()
    }

    fn summary(&self) -> (r: String) {
        self.to_string()
    }
}

impl MessageSummary for ApplyResult {
    open spec fn summary_spec(&self) -> Seq<char> {
        self.text()
    }

    fn summary(&self) -> (r: String) {
        self.to_string()
    }
}

impl MessageSummary for HeartbeatWorker {
    open spec fn summary_spec(&self) -> Seq<char> {
        self.text()
    }

    fn summary(&self) -> (r: String) {
        self.to_string()
    }
}

impl MessageSummary for DisplayVecProgress {
    open spec fn summary_spec(&self) -> Seq<char> {
        self.text()
    }

    fn summary(&self) -> (r: String) {
        self.to_string()
    }
}

impl MessageSummary for ClientRequest {
    open spec fn summary_spec(&self) -> Seq<char> {
        self.text()
    }

    fn summary(&self) -> (r: String) {
        self.to_string()
    }
}

impl MessageSummary for Elapsed {
    open spec fn summary_spec(&self) -> Seq<char> {
        "deadline has elapsed"@
    }

    fn summary(&self) -> (r: String) {
        self.to_string()
    }
}

impl MessageSummary for u8 {
    open spec fn summary_spec(&self) -> Seq<char> {
        text::decimal(*self as nat)
    }

    fn summary(&self) -> (r: String) {
        text::u64_text(*self as u64)
    }
}

impl MessageSummary for u16 {
    open spec fn summary_spec(&self) -> Seq<char> {
        text::decimal(*self as nat)
    }

    fn summary(&self) -> (r: String) {
        text::u64_text(*self as u64)
    }
}

impl MessageSummary for u32 {
    open spec fn summary_spec(&self) -> Seq<char> {
        text::decimal(*self as nat)
    }

    fn summary(&self) -> (r: String) {
        text::u64_text(*self as u64)
    }
}

impl MessageSummary for u64 {
    open spec fn summary_spec(&self) -> Seq<char> {
        text::decimal(*self as nat)
    }

    fn summary(&self) -> (r: String) {
        text::u64_text(*self as u64)
    }
}

impl MessageSummary for usize {
    open spec fn summary_spec(&self) -> Seq<char> {
        text::decimal(*self as nat)
    }

    fn summary(&self) -> (r: String) {
        text::u64_text(*self as u64)
    }
}

impl MessageSummary for u128 {
    open spec fn summary_spec(&self) -> Seq<char> {
        text::decimal(*self as nat)
    }

    fn summary(&self) -> (r: String) {
        text::u128_text(*self)
    }
}

impl MessageSummary for i8 {
    open spec fn summary_spec(&self) -> Seq<char> {
        text::integer(*self as int)
    }

    fn summary(&self) -> (r: String) {
        text::i128_text(*self as i128)
    }
}

impl MessageSummary for i16 {
    open spec fn summary_spec(&self) -> Seq<char> {
        text::integer(*self as int)
    }

    fn summary(&self) -> (r: String) {
        text::i128_text(*self as i128)
    }
}

impl MessageSummary for i32 {
    open spec fn summary_spec(&self) -> Seq<char> {
        text::integer(*self as int)
    }

    fn summary(&self) -> (r: String) {
        text::i128_text(*self as i128)
    }
}

impl MessageSummary for i64 {
    open spec fn summary_spec(&self) -> Seq<char> {
        text::integer(*self as int)
    }

    fn summary(&self) -> (r: String) {
        text::i128_text(*self as i128)
    }
}

impl MessageSummary for i128 {
    open spec fn summary_spec(&self) -> Seq<char> {
        text::integer(*self as int)
    }

    fn summary(&self) -> (r: String) {
        text::i128_text(*self as i128)
    }
}

impl MessageSummary for isize {
    open spec fn summary_spec(&self) -> Seq<char> {
        text::integer(*self as int)
    }

    fn summary(&self) -> (r: String) {
        text::i128_text(*self as i128)
    }
}

impl MessageSummary for bool {
    open spec fn summary_spec(&self) -> Seq<char> {
        text::bool_spec(*self)
    }

    fn summary(&self) -> (r: String) {
        text::bool_text(*self).to_owned()
    }
}

impl MessageSummary for String {
    open spec fn summary_spec(&self) -> Seq<char> {
        self@
    }

    fn summary(&self) -> (r: String) {
        self.as_str().to_owned()
    }
}

impl MessageSummary for &str {
    open spec fn summary_spec(&self) -> Seq<char> {
        (*self)@
    }

    fn summary(&self) -> (r: String) {
        (*self).to_owned()
    }
}

impl<T: MessageSummary> MessageSummary for &T {
    open spec fn summary_spec(&self) -> Seq<char> {
        (**self).summary_spec()
    }

    fn summary(&self) -> (r: String) {
        (**self).summary()
    }
}

/// The texts of a list of messages.
pub open spec fn summaries<T: MessageSummary>(items: Seq<T>) -> Seq<Seq<char>> {
    items.map_values(|x: T| x.summary_spec())
}

/// How many messages of a list are shown one by one.
pub const SHOWN_ITEMS: usize = 5;

/// The text of a list of messages: `{}` for none, each of a few, and the first and the last of many.
impl<T: MessageSummary> MessageSummary for &[T] {
    open spec fn summary_spec(&self) -> Seq<char> {
        let items = summaries((*self)@);
        if items.len() == 0 {
            "{}"@
        } else if items.len() <= SHOWN_ITEMS {
            text::join_spec(items, ","@)
        } else {
            items.first() + " ... "@ + items.last()
        }
    }

    fn summary(&self) -> (r: String) {
        let n: usize = self.len();
        let ghost items = summaries((*self)@);
        if n == 0 {
            return "{}".to_owned();
        }
        if n <= SHOWN_ITEMS {
            let mut texts: Vec<String> = Vec::new();
            let mut i: usize = 0;
            while i < n
                invariant
                    n == (*self)@.len(),
                    i <= n,
                    items == summaries((*self)@),
                    texts@.len() == i,
                    forall|j: int| 0 <= j < i ==> texts@[j]@ == items[j],
                decreases n - i,
            {
                texts.push(self[i].summary());
                i = i + 1;
            }
            assert(text::views(texts@) =~= items);
            text::join(&texts, ",")
        } else {
            let first = self[0].summary();
            let last = self[n - 1].summary();
            first.concat(" ... ").concat(last.as_str())
        }
    }
}

/// The text of an optional message: `None`, or `Some(..)` around the text of the message.
impl<T: MessageSummary> MessageSummary for Option<T> {
    open spec fn summary_spec(&self) -> Seq<char> {
        match self {
            None => "None"@,
            Some(x) => "Some("@ + x.summary_spec() + ")"@,
        }
    }

    fn summary(&self) -> (r: String) {
        match self {
            None => "None".to_owned(),
            Some(x) => "Some(".to_owned().concat(x.summary().as_str()).concat(")"),
        }
    }
}

/// Nothing is told of by a word, and something by its own text in brackets.
pub proof fn optional_messages_are_told_apart<T: MessageSummary>(x: T)
    ensures
        None::<T>.summary_spec() == "None"@,
        Some(x).summary_spec() == "Some("@ + x.summary_spec() + ")"@,
        (&x).summary_spec() == x.summary_spec(),
{
}

/// Of a list with up to five messages all are told of, of a longer one the first and the last.
pub proof fn long_lists_are_cut<T: MessageSummary>(items: &[T])
    ensures
        items@.len() == 0 ==> items.summary_spec() == "{}"@,
        items@.len() == 1 ==> items.summary_spec() == items@[0].summary_spec(),
        items@.len() == 2 ==> items.summary_spec() == items@[0].summary_spec() + ","@
            + items@[1].summary_spec(),
        items@.len() > 5 ==> items.summary_spec() == items@[0].summary_spec() + " ... "@
            + items@[items@.len() - 1].summary_spec(),
        2 <= items@.len() <= 5 ==> items.summary_spec() == text::join_spec(
            Seq::new(items@.len(), |i: int| items@[i].summary_spec()),
            ","@,
        ),
{
    let texts = summaries(items@);
    assert(texts.len() == items@.len());
    assert(forall|i: int| 0 <= i < texts.len() ==> texts[i] == items@[i].summary_spec());
    assert(texts =~= Seq::new(items@.len(), |i: int| items@[i].summary_spec()));
    if items@.len() == 2 {
        assert(texts.drop_last()[0] == texts[0]);
        reveal_with_fuel(text::join_spec, 3);
    }
}

/// Numbers are told of by their digits.
pub proof fn numbers_are_told_of_by_their_digits(a: u64, b: u128, c: i64, d: u8)
    ensures
        text::number(a.summary_spec()) == a,
        text::number(b.summary_spec()) == b,
        text::number(d.summary_spec()) == d,
        c >= 0 ==> text::number(c.summary_spec()) == c,
        c < 0 ==> c.summary_spec()[0] == '-' && text::number(c.summary_spec().skip(1)) == -c,
{
    text::decimal_stands_for_its_number(a as nat, 0);
    text::decimal_stands_for_its_number(b as nat, 0);
    text::decimal_stands_for_its_number(d as nat, 0);
    text::negative_integers_have_a_sign(c as int);
}

} // verus!
