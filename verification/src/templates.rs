//! Rendering a template once for each row of arguments.

use vstd::prelude::*;
use vstd::string::*;
use crate::text;

verus! {

/// A template: its variables, and the tokens of its body.
#[derive(Clone, Debug, PartialEq, Eq)]
pub struct Template {
    pub variables: Vec<String>,
    pub body: Vec<String>,
}

/// A template as mathematics.
pub struct TemplateView {
    pub variables: Seq<Seq<char>>,
    pub body: Seq<Seq<char>>,
}

impl View for Template {
    type V = TemplateView;

    open spec fn view(&self) -> TemplateView {
        TemplateView {
            variables: text::views(self.variables@),
            body: text::views(self.body@),
        }
    }
}

/// A row of arguments as mathematics: for each variable, its tokens.
pub open spec fn row_view(row: Seq<Vec<String>>) -> Seq<Seq<Seq<char>>> {
    row.map_values(|tokens: Vec<String>| text::views(tokens@))
}

/// Rows of arguments as mathematics.
pub open spec fn row_views(rows: Seq<Vec<Vec<String>>>) -> Seq<Seq<Seq<Seq<char>>>> {
    rows.map_values(|row: Vec<Vec<String>>| row_view(row@))
}

impl TemplateView {
    /// There is a variable, and none occurs twice.
    pub open spec fn wf(self) -> bool {
        self.variables.len() > 0 && self.variables.no_duplicates()
    }

    /// Whether a row has an argument for each variable.
    pub open spec fn takes(self, row: Seq<Seq<Seq<char>>>) -> bool {
        row.len() == self.variables.len()
    }

    /// What a token is rendered as: the argument of a variable, or the token itself.
    pub open spec fn token(self, row: Seq<Seq<Seq<char>>>, token: Seq<char>) -> Seq<Seq<char>> {
        if self.variables.contains(token) {
            row[self.variables.index_of(token)]
        } else {
            seq![token]
        }
    }

    /// What tokens are rendered as.
    pub open spec fn tokens(
        self,
        row: Seq<Seq<Seq<char>>>,
        tokens: Seq<Seq<char>>,
    ) -> Seq<Seq<char>>
        decreases tokens.len(),
    {
        if tokens.len() == 0 {
            Seq::empty()
        } else {
            self.tokens(row, tokens.drop_last()) + self.token(row, tokens.last())
        }
    }

    /// The body with the arguments of a row.
    pub open spec fn rendered(self, row: Seq<Seq<Seq<char>>>) -> Seq<Seq<char>> {
        self.tokens(row, self.body)
    }

    /// The body with the arguments of each row, one after the other.  Where the first variable is a
    /// key, a row whose key was there before is ignored.
    pub open spec fn expanded(self, keyed: bool, rows: Seq<Seq<Seq<Seq<char>>>>) -> Seq<Seq<char>>
        decreases rows.len(),
    {
        if rows.len() == 0 {
            Seq::empty()
        } else {
            let before = self.expanded(keyed, rows.drop_last());
            if keyed && has_key(rows.drop_last(), rows.last()[0]) {
                before
            } else {
                before + self.rendered(rows.last())
            }
        }
    }
}

/// Whether a row has the given key.
pub open spec fn has_key(rows: Seq<Seq<Seq<Seq<char>>>>, key: Seq<Seq<char>>) -> bool {
    exists|i: int| 0 <= i < rows.len() && (#[trigger] rows[i])[0] == key
}

fn same_tokens(a: &Vec<String>, b: &Vec<String>) -> (r: bool)
    ensures
        r == (text::views(a@) == text::views(b@)),
{
    if a.len() != b.len() {
        assert(text::views(a@).len() != text::views(b@).len());
        return false;
    }
    let mut i: usize = 0;
    while i < a.len()
        invariant
            i <= a.len(),
            a.len() == b.len(),
            forall|k: int| 0 <= k < i ==> text::views(a@)[k] == text::views(b@)[k],
        decreases a.len() - i,
    {
        if a[i] != b[i] {
            assert(text::views(a@)[i as int] != text::views(b@)[i as int]);
            return false;
        }
        i = i + 1;
    }
    assert(text::views(a@) =~= text::views(b@));
    true
}

/// Append copies of tokens.
fn append_tokens(out: &mut Vec<String>, tokens: &Vec<String>)
    ensures
        text::views(final(out)@) == text::views(old(out)@) + text::views(tokens@),
{
    let ghost before = text::views(out@);
    let mut i: usize = 0;
    assert(text::views(out@) =~= before + text::views(tokens@).take(0));
    while i < tokens.len()
        invariant
            i <= tokens.len(),
            text::views(out@) == before + text::views(tokens@).take(i as int),
        decreases tokens.len() - i,
    {
        let ghost old_out = out@;
        let token = tokens[i].as_str().to_owned();
        out.push(token);
        assert(text::views(out@) =~= text::views(old_out).push(token@));
        assert(text::views(tokens@).take(i + 1) =~= text::views(tokens@).take(i as int).push(
            token@,
        ));
        assert(text::views(out@) =~= before + text::views(tokens@).take(i + 1));
        i = i + 1;
    }
    assert(text::views(tokens@).take(tokens.len() as int) =~= text::views(tokens@));
}

impl Template {
    /// The variable that a token is, if it is one.
    fn variable(&self, token: &String) -> (r: Option<usize>)
        requires
            self@.wf(),
        ensures
            match r {
                Some(i) => {
                    &&& self@.variables.contains(token@)
                    &&& i == self@.variables.index_of(token@)
                    &&& i < self.variables@.len()
                },
                None => !self@.variables.contains(token@),
            },
    {
        let mut i: usize = 0;
        while i < self.variables.len()
            invariant
                self@.wf(),
                i <= self.variables.len(),
                forall|k: int| 0 <= k < i ==> self@.variables[k] != token@,
            decreases self.variables.len() - i,
        {
            if self.variables[i] == *token {
                proof {
                    assert(self@.variables[i as int] == token@);
                    let j = self@.variables.index_of(token@);
                    assert(self@.variables[j] == token@);
                }
                return Some(i);
            }
            assert(self@.variables[i as int] != token@);
            i = i + 1;
        }
        None
    }

    /// Append the body with the arguments of a row.
    fn render(&self, row: &Vec<Vec<String>>, out: &mut Vec<String>)
        requires
            self@.wf(),
            self@.takes(row_view(row@)),
        ensures
            text::views(final(out)@) == text::views(old(out)@) + self@.rendered(row_view(row@)),
    {
        let ghost before = text::views(out@);
        let ghost values = row_view(row@);
        let mut i: usize = 0;
        assert(text::views(out@) =~= before + self@.tokens(values, self@.body.take(0)));
        while i < self.body.len()
            invariant
                self@.wf(),
                self@.takes(values),
                values == row_view(row@),
                i <= self.body.len(),
                text::views(out@) == before + self@.tokens(values, self@.body.take(i as int)),
            decreases self.body.len() - i,
        {
            let ghost old_out = out@;
            proof {
                assert(self@.body.take(i + 1).drop_last() =~= self@.body.take(i as int));
                assert(self@.body.take(i + 1).last() == self.body[i as int]@);
            }
            match self.variable(&self.body[i]) {
                Some(v) => {
                    append_tokens(out, &row[v]);
                    assert(values[v as int] == text::views(row[v as int]@));
                },
                None => {
                    let token = self.body[i].as_str().to_owned();
                    out.push(token);
                    assert(text::views(out@) =~= text::views(old_out) + seq![token@]);
                },
            }
            assert(text::views(out@) =~= before + self@.tokens(values, self@.body.take(i + 1)));
            i = i + 1;
        }
        assert(self@.body.take(self.body.len() as int) =~= self@.body);
    }
}

/// Whether one of the first `n` rows has the given key.
fn is_seen(rows: &Vec<Vec<Vec<String>>>, n: usize, key: &Vec<String>) -> (r: bool)
    requires
        n <= rows@.len(),
        forall|i: int| 0 <= i < rows@.len() ==> (#[trigger] rows@[i])@.len() > 0,
    ensures
        r == has_key(row_views(rows@).take(n as int), text::views(key@)),
{
    let ghost all = row_views(rows@).take(n as int);
    let mut i: usize = 0;
    while i < n
        invariant
            i <= n <= rows@.len(),
            all == row_views(rows@).take(n as int),
            forall|i: int| 0 <= i < rows@.len() ==> (#[trigger] rows@[i])@.len() > 0,
            forall|k: int| 0 <= k < i ==> (#[trigger] all[k])[0] != text::views(key@),
        decreases n - i,
    {
        assert(rows@[i as int]@.len() > 0);
        assert(all[i as int][0] == text::views(rows@[i as int]@[0]@));
        if same_tokens(&rows[i][0], key) {
            return true;
        }
        i = i + 1;
    }
    false
}

/// Render a template with the arguments of each row, one after the other.  Where the first variable
/// is a key, a row whose key was there before is ignored.
pub fn expand(keyed: bool, template: &Template, rows: &Vec<Vec<Vec<String>>>) -> (r: Vec<String>)
    requires
        template@.wf(),
        forall|i: int| 0 <= i < rows@.len() ==> template@.takes(#[trigger] row_views(rows@)[i]),
    ensures
        text::views(r@) == template@.expanded(keyed, row_views(rows@)),
{
    let mut r: Vec<String> = Vec::new();
    let ghost all = row_views(rows@);
    let mut i: usize = 0;
    proof {
        assert forall|k: int| 0 <= k < rows@.len() implies (#[trigger] rows@[k])@.len() > 0 by {
            assert(template@.takes(all[k]));
        }
        assert(text::views(r@) =~= template@.expanded(keyed, all.take(0)));
    }
    while i < rows.len()
        invariant
            template@.wf(),
            all == row_views(rows@),
            forall|k: int| 0 <= k < all.len() ==> template@.takes(#[trigger] all[k]),
            forall|k: int| 0 <= k < rows@.len() ==> (#[trigger] rows@[k])@.len() > 0,
            i <= rows.len(),
            text::views(r@) == template@.expanded(keyed, all.take(i as int)),
        decreases rows.len() - i,
    {
        proof {
            assert(all.take(i + 1).drop_last() =~= all.take(i as int));
            assert(all.take(i + 1).last() == all[i as int]);
            assert(template@.takes(all[i as int]));
            assert(all[i as int] == row_view(rows@[i as int]@));
            assert(rows@[i as int]@.len() > 0);
            assert(all[i as int][0] == text::views(rows@[i as int]@[0]@));
        }
        if !(keyed && is_seen(rows, i, &rows[i][0])) {
            template.render(&rows[i], &mut r);
        }
        i = i + 1;
    }
    assert(all.take(rows.len() as int) =~= all);
    r
}

/// With keys, a row whose key was there before changes nothing; any other row is rendered after the
/// rows before it.
pub proof fn duplicate_keys_are_ignored(
    t: TemplateView,
    rows: Seq<Seq<Seq<Seq<char>>>>,
    row: Seq<Seq<Seq<char>>>,
)
    ensures
        has_key(rows, row[0]) ==> t.expanded(true, rows.push(row)) == t.expanded(true, rows),
        !has_key(rows, row[0]) ==> t.expanded(true, rows.push(row)) == t.expanded(true, rows)
            + t.rendered(row),
{
    assert(rows.push(row).drop_last() =~= rows);
}

/// Where no key occurs twice, keys make no difference.
pub proof fn distinct_keys_are_all_rendered(t: TemplateView, rows: Seq<Seq<Seq<Seq<char>>>>)
    requires
        forall|i: int, j: int|
            0 <= i < j < rows.len() ==> (#[trigger] rows[i])[0] != (#[trigger] rows[j])[0],
    ensures
        t.expanded(true, rows) == t.expanded(false, rows),
    decreases rows.len(),
{
    if rows.len() > 0 {
        let before = rows.drop_last();
        assert forall|i: int, j: int| 0 <= i < j < before.len() implies (#[trigger] before[i])[0]
            != (#[trigger] before[j])[0] by {
            assert(before[i] == rows[i] && before[j] == rows[j]);
        }
        distinct_keys_are_all_rendered(t, before);
        if has_key(before, rows.last()[0]) {
            let i = choose|i: int| 0 <= i < before.len() && (#[trigger] before[i])[0]
                == rows.last()[0];
            assert(rows[i][0] == rows[rows.len() - 1][0]);
        }
    }
}

proof fn lemma_same_variables(
    a: TemplateView,
    b: TemplateView,
    row: Seq<Seq<Seq<char>>>,
    tokens: Seq<Seq<char>>,
)
    requires
        a.variables == b.variables,
    ensures
        a.tokens(row, tokens) == b.tokens(row, tokens),
    decreases tokens.len(),
{
    if tokens.len() > 0 {
        lemma_same_variables(a, b, row, tokens.drop_last());
    }
}

/// A body is rendered token by token: a variable becomes its argument, which is that at its place in
/// the row, and any other token stays as it is.
pub proof fn variables_become_their_arguments(
    t: TemplateView,
    token: Seq<char>,
    row: Seq<Seq<Seq<char>>>,
    i: int,
)
    requires
        t.wf(),
    ensures
        ({
            let longer = TemplateView { variables: t.variables, body: t.body.push(token) };
            &&& 0 <= i < t.variables.len() && t.variables[i] == token ==> longer.rendered(row)
                == t.rendered(row) + row[i]
            &&& (forall|k: int| 0 <= k < t.variables.len() ==> t.variables[k] != token)
                ==> longer.rendered(row) == t.rendered(row).push(token)
        }),
        t.body.len() == 0 ==> t.rendered(row) == Seq::<Seq<char>>::empty(),
{
    let longer = TemplateView { variables: t.variables, body: t.body.push(token) };
    assert(t.body.push(token).drop_last() =~= t.body);
    lemma_same_variables(longer, t, row, t.body);
    assert(longer.rendered(row) == t.rendered(row) + t.token(row, token));
    if 0 <= i < t.variables.len() && t.variables[i] == token {
        assert(t.variables.contains(token));
        let k = t.variables.index_of(token);
        assert(t.variables[k] == token);
        assert(k == i);
    }
}

/// Rows are rendered one after the other; with keys, a row is left out exactly if a row before it has
/// the same first argument.
pub proof fn rows_are_rendered_in_order(
    t: TemplateView,
    keyed: bool,
    rows: Seq<Seq<Seq<Seq<char>>>>,
    row: Seq<Seq<Seq<char>>>,
)
    ensures
        t.expanded(keyed, Seq::empty()) == Seq::<Seq<char>>::empty(),
        !keyed || (forall|i: int| 0 <= i < rows.len() ==> (#[trigger] rows[i])[0] != row[0])
            ==> t.expanded(keyed, rows.push(row)) == t.expanded(keyed, rows) + t.rendered(row),
        keyed && (exists|i: int| 0 <= i < rows.len() && (#[trigger] rows[i])[0] == row[0])
            ==> t.expanded(keyed, rows.push(row)) == t.expanded(keyed, rows),
{
    assert(rows.push(row).drop_last() =~= rows);
}

/// An expansion renders each row of its arguments.
pub proof fn expand_calls(
    keyed: bool,
    template: Template,
    rows: Vec<Vec<Vec<String>>>,
    r: Vec<String>,
)
    requires
        call_ensures(expand, (keyed, &template, &rows), r),
    ensures
        text::views(r@) == template@.expanded(keyed, row_views(rows@)),
        template@.variables == text::views(template.variables@),
        template@.body == text::views(template.body@),
{
}

} // verus!
