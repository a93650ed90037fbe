//! Rewriting the asynchronous functions of a trait so that their futures can be sent.
//!
//! The parts of a trait that the rewriting does not read are not here: what stays as it is.

use vstd::prelude::*;
use vstd::string::*;

verus! {

/// A function of a trait.
#[derive(Clone, Debug, PartialEq, Eq)]
pub struct TraitFn {
    /// Whether the function is asynchronous.
    pub asyncness: bool,
    /// The type that it returns, if it names one.
    pub output: Option<String>,
    /// Its default body, if it has one.
    pub default: Option<String>,
}

/// A function of a trait, as mathematics.
#[verifier::ext_equal]
pub struct TraitFnView {
    pub asyncness: bool,
    pub output: Option<Seq<char>>,
    pub default: Option<Seq<char>>,
}

pub open spec fn opt_view(s: Option<String>) -> Option<Seq<char>> {
    match s {
        Some(t) => Some(t@),
        None => None,
    }
}

impl View for TraitFn {
    type V = TraitFnView;

    open spec fn view(&self) -> TraitFnView {
        TraitFnView {
            asyncness: self.asyncness,
            output: opt_view(self.output),
            default: opt_view(self.default),
        }
    }
}

impl TraitFnView {
    /// The type of the future of a function: one that can be sent, with the type of the function as
    /// its output.
    pub open spec fn future_of(self) -> Seq<char> {
        "impl std::future::Future<Output = "@ + (match self.output {
            Some(t) => t,
            None => "()"@,
        }) + "> + Send"@
    }

    /// An asynchronous function becomes one that returns a future, and its body an asynchronous
    /// block; any other function stays as it is.
    pub open spec fn sendable(self) -> TraitFnView {
        if self.asyncness {
            TraitFnView {
                asyncness: false,
                output: Some(self.future_of()),
                default: match self.default {
                    Some(body) => Some("{ async move "@ + body + " }"@),
                    None => None,
                },
            }
        } else {
            self
        }
    }
}

/// Something that a trait holds.
#[derive(Clone, Debug, PartialEq, Eq)]
pub enum TraitItem {
    Fn(TraitFn),
    /// A type or a constant, as it is written.
    Other(String),
}

/// Something that a trait holds, as mathematics.
#[verifier::ext_equal]
pub enum TraitItemView {
    Fn(TraitFnView),
    Other(Seq<char>),
}

impl View for TraitItem {
    type V = TraitItemView;

    open spec fn view(&self) -> TraitItemView {
        match self {
            TraitItem::Fn(f) => TraitItemView::Fn(f@),
            TraitItem::Other(t) => TraitItemView::Other(t@),
        }
    }
}

impl TraitItemView {
    /// The item with its function, if it is one, made sendable.
    pub open spec fn sendable(self) -> TraitItemView {
        match self {
            TraitItemView::Fn(f) => TraitItemView::Fn(f.sendable()),
            TraitItemView::Other(t) => TraitItemView::Other(t),
        }
    }
}

/// The items of a trait, as mathematics.
pub open spec fn item_views(items: Seq<TraitItem>) -> Seq<TraitItemView> {
    items.map_values(|i: TraitItem| i@)
}

fn rewrite(f: TraitFn) -> (r: TraitFn)
    ensures
        r@ == f@.sendable(),
{
    if !f.asyncness {
        return f;
    }
    let t = match &f.output {
        Some(t) => t.as_str(),
        None => "()",
    };
    let output = "impl std::future::Future<Output = ".to_owned().concat(t).concat("> + Send");
    let default = match &f.default {
        Some(body) => Some("{ async move ".to_owned().concat(body.as_str()).concat(" }")),
        None => None,
    };
    TraitFn { asyncness: false, output: Some(output), default }
}

/// Make the futures of a trait sendable, function by function, in their order.
pub fn add_send_bounds(items: Vec<TraitItem>) -> (r: Vec<TraitItem>)
    ensures
        item_views(r@) == item_views(items@).map_values(|i: TraitItemView| i.sendable()),
{
    let ghost all = items@;
    let mut rest = items;
    let mut r: Vec<TraitItem> = Vec::new();
    let ghost mut n: int = 0;
    assert(all.skip(0) =~= all);
    while rest.len() > 0
        invariant
            0 <= n <= all.len(),
            rest@ == all.skip(n),
            r@.len() == n,
            forall|i: int| 0 <= i < n ==> (#[trigger] r@[i])@ == all[i]@.sendable(),
        decreases rest.len(),
    {
        let item = rest.remove(0);
        proof {
            assert(item == all[n]);
            assert(rest@ =~= all.skip(n + 1));
        }
        let new = match item {
            TraitItem::Fn(f) => TraitItem::Fn(rewrite(f)),
            TraitItem::Other(t) => TraitItem::Other(t),
        };
        r.push(new);
        proof {
            n = n + 1;
        }
    }
    assert(item_views(r@) =~= item_views(all).map_values(|i: TraitItemView| i.sendable()));
    r
}

/// Nothing is left to do for a trait whose futures are sendable: no function is asynchronous any
/// more, and making them sendable again changes nothing.
pub proof fn sendable_is_stable(i: TraitItemView)
    ensures
        i.sendable() matches TraitItemView::Fn(f) ==> !f.asyncness,
        i.sendable().sendable() == i.sendable(),
{
}

/// An asynchronous function becomes one that is not, returns a future of what it returned, which can be
/// sent, and has its body in an asynchronous block, if it has one.  No other function changes.
pub proof fn asynchronous_functions_return_futures(f: TraitFnView, t: Seq<char>)
    ensures
        !f.asyncness ==> f.sendable() == f,
        f.asyncness ==> {
            let g = f.sendable();
            &&& !g.asyncness
            &&& f.output matches Some(o) ==> g.output == Some(
                "impl std::future::Future<Output = "@ + o + "> + Send"@,
            )
            &&& f.output is None ==> g.output == Some(
                "impl std::future::Future<Output = "@ + "()"@ + "> + Send"@,
            )
            &&& f.default matches Some(b) ==> g.default == Some("{ async move "@ + b + " }"@)
            &&& f.default is None ==> g.default is None
        },
        TraitItemView::Fn(f).sendable() == TraitItemView::Fn(f.sendable()),
        TraitItemView::Other(t).sendable() == TraitItemView::Other(t),
{
}

/// A trait keeps its items and their order: each is made sendable by itself.
pub proof fn items_keep_their_places(items: Vec<TraitItem>, r: Vec<TraitItem>, i: int)
    requires
        call_ensures(add_send_bounds, (items,), r),
    ensures
        r@.len() == items@.len(),
        0 <= i < items@.len() ==> r@[i]@ == items@[i]@.sendable(),
{
    assert(item_views(r@).len() == r@.len());
    assert(item_views(items@).len() == items@.len());
    if 0 <= i < items@.len() {
        assert(item_views(r@)[i] == r@[i]@);
        assert(item_views(items@)[i] == items@[i]@);
    }
}

} // verus!
