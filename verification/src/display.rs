//! Texts of lists.

use vstd::prelude::*;
use crate::text;

verus! {

/// A list in brackets: up to five items in full, of a longer list the first four, two dots and the
/// last.
pub open spec fn slice_spec(items: Seq<Seq<char>>) -> Seq<char> {
    if items.len() <= 5 {
        "["@ + text::join_spec(items, ","@) + "]"@
    } else {
        "["@ + text::join_spec(items.take(4), ","@) + ",..,"@ + items.last() + "]"@
    }
}

/// `display_more::DisplaySliceExt::display` on a slice of strings, written out: the items between
/// brackets with a comma between two of them; of more than five items the first four, `..` and
/// the last.
#[verifier::external_body]
pub(crate) fn display_slice(items: &Vec<String>) -> (r: String)
    ensures
        r@ == slice_spec(text::views(items@)),
{
    display_more::DisplaySliceExt::display(items.as_slice()).to_string()
}

} // verus!
