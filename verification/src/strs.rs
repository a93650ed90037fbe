//! Searching and trimming text.

use vstd::prelude::*;
use vstd::string::*;

verus! {

/// Whether a character is white space, as Unicode defines it.
pub open spec fn is_white_space(c: char) -> bool {
    let n = c as u32;
    ||| 0x9 <= n <= 0xd
    ||| n == 0x20
    ||| n == 0x85
    ||| n == 0xa0
    ||| n == 0x1680
    ||| 0x2000 <= n <= 0x200a
    ||| n == 0x2028
    ||| n == 0x2029
    ||| n == 0x202f
    ||| n == 0x205f
    ||| n == 0x3000
}

fn white_space(c: char) -> (r: bool)
    ensures
        r == is_white_space(c),
{
    let n: u32 = c as u32;
    (0x9 <= n && n <= 0xd) || n == 0x20 || n == 0x85 || n == 0xa0 || n == 0x1680 || (0x2000 <= n
        && n <= 0x200a) || n == 0x2028 || n == 0x2029 || n == 0x202f || n == 0x205f || n == 0x3000
}

/// A text without the white space at its start.
pub open spec fn trim_start_spec(s: Seq<char>) -> Seq<char>
    decreases s.len(),
{
    if s.len() > 0 && is_white_space(s.first()) {
        trim_start_spec(s.drop_first())
    } else {
        s
    }
}

/// A text without the white space at its end.
pub open spec fn trim_end_spec(s: Seq<char>) -> Seq<char>
    decreases s.len(),
{
    if s.len() > 0 && is_white_space(s.last()) {
        trim_end_spec(s.drop_last())
    } else {
        s
    }
}

/// A text without the white space at its start and its end.
pub open spec fn trim_spec(s: Seq<char>) -> Seq<char> {
    trim_end_spec(trim_start_spec(s))
}

/// A text without the white space at its start and its end.
pub fn trim(s: &str) -> (r: &str)
    ensures
        r@ == trim_spec(s@),
{
    let n: usize = s.unicode_len();
    let mut from: usize = 0;
    assert(s@.skip(0) =~= s@);
    while from < n && white_space(s.get_char(from))
        invariant
            n == s@.len(),
            from <= n,
            trim_start_spec(s@) == trim_start_spec(s@.skip(from as int)),
        decreases n - from,
    {
        assert(s@.skip(from as int).drop_first() =~= s@.skip(from + 1));
        from = from + 1;
    }
    let ghost start = s@.skip(from as int);
    assert(trim_start_spec(s@) == start);
    let mut to: usize = n;
    assert(s@.subrange(from as int, n as int) =~= start);
    while to > from && white_space(s.get_char(to - 1))
        invariant
            n == s@.len(),
            from <= to <= n,
            start == s@.skip(from as int),
            trim_end_spec(start) == trim_end_spec(s@.subrange(from as int, to as int)),
        decreases to,
    {
        let ghost t = s@.subrange(from as int, to as int);
        assert(t.drop_last() =~= s@.subrange(from as int, to - 1));
        assert(t.last() == s@[to - 1]);
        to = to - 1;
    }
    s.substring_char(from, to)
}

/// A trimmed text neither starts nor ends with white space.
pub proof fn trimmed_has_no_white_ends(s: Seq<char>)
    ensures
        ({
            let t = trim_spec(s);
            t.len() > 0 ==> !is_white_space(t.first()) && !is_white_space(t.last())
        }),
{
    lemma_trim_start(s);
    lemma_trim_end(trim_start_spec(s));
}

/// A text that neither starts nor ends with white space is not trimmed.
pub proof fn trim_keeps_trimmed(s: Seq<char>)
    requires
        s.len() > 0 ==> !is_white_space(s.first()) && !is_white_space(s.last()),
    ensures
        trim_spec(s) == s,
{
}

proof fn lemma_trim_start(s: Seq<char>)
    ensures
        trim_start_spec(s).len() > 0 ==> !is_white_space(trim_start_spec(s).first()),
    decreases s.len(),
{
    if s.len() > 0 && is_white_space(s.first()) {
        lemma_trim_start(s.drop_first());
    }
}

proof fn lemma_trim_end(s: Seq<char>)
    ensures
        trim_end_spec(s).len() > 0 ==> !is_white_space(trim_end_spec(s).last()) && s.len() > 0
            && trim_end_spec(s).first() == s.first(),
    decreases s.len(),
{
    if s.len() > 0 && is_white_space(s.last()) {
        lemma_trim_end(s.drop_last());
    }
}

/// Whether a text holds another at a position.
pub open spec fn occurs_at(s: Seq<char>, p: Seq<char>, i: int) -> bool {
    &&& 0 <= i
    &&& i + p.len() <= s.len()
    &&& s.subrange(i, i + p.len()) =~= p
}

/// Whether a text starts with another.
pub open spec fn starts_with_spec(s: Seq<char>, p: Seq<char>) -> bool {
    occurs_at(s, p, 0)
}

/// Whether a text holds another somewhere.
pub open spec fn contains_spec(s: Seq<char>, p: Seq<char>) -> bool {
    exists|i: int| occurs_at(s, p, i)
}

fn matches_at(s: &str, p: &str, i: usize) -> (r: bool)
    requires
        i + p@.len() <= s@.len(),
    ensures
        r == occurs_at(s@, p@, i as int),
{
    let n: usize = s.unicode_len();
    let m: usize = p.unicode_len();
    let mut k: usize = 0;
    while k < m
        invariant
            n == s@.len(),
            m == p@.len(),
            k <= m,
            i + m <= s@.len(),
            forall|j: int| 0 <= j < k ==> s@[i + j] == p@[j],
        decreases m - k,
    {
        if s.get_char(i + k) != p.get_char(k) {
            assert(s@.subrange(i as int, i + p@.len())[k as int] == s@[i + k]);
            return false;
        }
        k = k + 1;
    }
    true
}

/// Whether a text starts with another.
pub fn starts_with(s: &str, p: &str) -> (r: bool)
    ensures
        r == starts_with_spec(s@, p@),
{
    p.unicode_len() <= s.unicode_len() && matches_at(s, p, 0)
}

/// Whether a text holds another somewhere.
pub fn contains(s: &str, p: &str) -> (r: bool)
    ensures
        r == contains_spec(s@, p@),
{
    let n: usize = s.unicode_len();
    let m: usize = p.unicode_len();
    let mut i: usize = 0;
    if m > n {
        return false;
    }
    while i <= n - m
        invariant
            n == s@.len(),
            m == p@.len(),
            m <= n,
            i <= n - m + 1,
            forall|j: int| 0 <= j < i ==> !occurs_at(s@, p@, j),
        decreases n - m + 1 - i,
    {
        if matches_at(s, p, i) {
            return true;
        }
        if i == n - m {
            return false;
        }
        i = i + 1;
    }
    false
}

/// What comes before, in and after a part of a text holds what the part holds.
pub proof fn part_is_contained(a: Seq<char>, s: Seq<char>, b: Seq<char>, p: Seq<char>)
    requires
        contains_spec(s, p),
    ensures
        contains_spec(a + s + b, p),
{
    let i = choose|i: int| occurs_at(s, p, i);
    let t = a + s + b;
    assert forall|j: int| 0 <= j < p.len() implies t.subrange(
        a.len() + i,
        a.len() + i + p.len(),
    )[j] == p[j] by {
        assert(s.subrange(i, i + p.len())[j] == s[i + j]);
    }
    assert(occurs_at(t, p, a.len() + i));
}

/// What follows the last `/` of a text, or the whole text without one.
pub open spec fn after_last_slash(s: Seq<char>) -> Seq<char>
    decreases s.len(),
{
    if s.len() == 0 || s.last() == '/' {
        Seq::empty()
    } else {
        after_last_slash(s.drop_last()).push(s.last())
    }
}

/// What follows the last `/` of a text, if there is one.
pub open spec fn rsplit_spec(s: Seq<char>) -> Option<Seq<char>> {
    if s.contains('/') {
        Some(after_last_slash(s))
    } else {
        None
    }
}

/// What follows the last `/` of a text, if there is one.
pub fn rsplit(s: &str) -> (r: Option<&str>)
    ensures
        match r {
            Some(t) => rsplit_spec(s@) == Some(t@),
            None => rsplit_spec(s@) is None,
        },
{
    let n: usize = s.unicode_len();
    let mut i: usize = n;
    assert(s@.take(n as int) =~= s@);
    assert(s@.skip(n as int) =~= Seq::<char>::empty());
    while i > 0
        invariant
            n == s@.len(),
            i <= n,
            after_last_slash(s@) == after_last_slash(s@.take(i as int)) + s@.skip(i as int),
            forall|j: int| i <= j < n ==> s@[j] != '/',
        decreases i,
    {
        let ghost t = s@.take(i as int);
        assert(t.last() == s@[i - 1]);
        if s.get_char(i - 1) == '/' {
            assert(s@.contains('/'));
            let r = s.substring_char(i, n);
            assert(r@ =~= Seq::<char>::empty() + s@.skip(i as int));
            return Some(r);
        }
        assert(t.drop_last() =~= s@.take(i - 1));
        assert(after_last_slash(t) + s@.skip(i as int) =~= after_last_slash(s@.take(i - 1))
            + s@.skip(i - 1));
        i = i - 1;
    }
    None
}

/// Of a text that ends with a `/` and a part without one, that part follows the last `/`.
pub proof fn rsplit_of_last_part(head: Seq<char>, part: Seq<char>)
    requires
        !part.contains('/'),
    ensures
        rsplit_spec(head + seq!['/'] + part) == Some(part),
    decreases part.len(),
{
    let s = head + seq!['/'] + part;
    assert(s[head.len() as int] == '/');
    lemma_after_last(head, part);
}

proof fn lemma_after_last(head: Seq<char>, part: Seq<char>)
    requires
        !part.contains('/'),
    ensures
        after_last_slash(head + seq!['/'] + part) == part,
    decreases part.len(),
{
    let s = head + seq!['/'] + part;
    if part.len() == 0 {
        assert(s.last() == '/');
        assert(part =~= Seq::empty());
    } else {
        let rest = part.drop_last();
        assert(part.contains(part.last()));
        assert forall|c: char| rest.contains(c) implies part.contains(c) by {
            let i = choose|i: int| 0 <= i < rest.len() && rest[i] == c;
            assert(part[i] == c);
        }
        lemma_after_last(head, rest);
        assert(s.last() == part.last());
        assert(s.drop_last() =~= head + seq!['/'] + rest);
        assert(rest.push(part.last()) =~= part);
    }
}

/// Trimming takes away white space only: what stands before and after the trimmed text is white
/// space, every character of it.
pub proof fn trimming_takes_white_space_only(s: Seq<char>)
    ensures
        exists|from: int, to: int|
            #![trigger s.subrange(from, to)]
            0 <= from <= to <= s.len() && trim_spec(s) == s.subrange(from, to) && (forall|i: int|
                0 <= i < from ==> is_white_space(#[trigger] s[i])) && (forall|i: int|
                to <= i < s.len() ==> is_white_space(#[trigger] s[i])),
{
    let t = trim_start_spec(s);
    lemma_start_taken(s);
    let from = s.len() - t.len();
    lemma_end_taken(t);
    let n = trim_end_spec(t).len() as int;
    assert(trim_spec(s) =~= s.subrange(from, from + n));
    assert forall|i: int| from + n <= i < s.len() implies is_white_space(#[trigger] s[i]) by {
        assert(t[i - from] == s[i]);
    }
}

proof fn lemma_start_taken(s: Seq<char>)
    ensures
        trim_start_spec(s).len() <= s.len(),
        trim_start_spec(s) == s.skip(s.len() - trim_start_spec(s).len()),
        forall|i: int|
            0 <= i < s.len() - trim_start_spec(s).len() ==> is_white_space(#[trigger] s[i]),
    decreases s.len(),
{
    if s.len() > 0 && is_white_space(s.first()) {
        let r = s.drop_first();
        lemma_start_taken(r);
        let k = r.len() - trim_start_spec(r).len();
        assert(r.skip(k) =~= s.skip(k + 1));
        assert forall|i: int| 0 <= i < k + 1 implies is_white_space(#[trigger] s[i]) by {
            if i > 0 {
                assert(r[i - 1] == s[i]);
            }
        }
    } else {
        assert(s.skip(0) =~= s);
    }
}

proof fn lemma_end_taken(s: Seq<char>)
    ensures
        trim_end_spec(s).len() <= s.len(),
        trim_end_spec(s) == s.take(trim_end_spec(s).len() as int),
        forall|i: int| trim_end_spec(s).len() <= i < s.len() ==> is_white_space(#[trigger] s[i]),
    decreases s.len(),
{
    if s.len() > 0 && is_white_space(s.last()) {
        let r = s.drop_last();
        lemma_end_taken(r);
        let k = trim_end_spec(r).len() as int;
        assert(r.take(k) =~= s.take(k));
        assert forall|i: int| k <= i < s.len() implies is_white_space(#[trigger] s[i]) by {
            if i < r.len() {
                assert(r[i] == s[i]);
            }
        }
    } else {
        assert(s.take(s.len() as int) =~= s);
    }
}

/// Blanks, tabs and line ends are white space; letters, digits and slashes are not.
pub proof fn words_hold_no_white_space(c: char)
    ensures
        c == ' ' || c == '\t' || c == '\n' || c == '\r' ==> is_white_space(c),
        'a' <= c <= 'z' || 'A' <= c <= 'Z' || '0' <= c <= '9' ==> !is_white_space(c),
        c == '/' || c == ':' || c == '.' || c == '?' || c == '=' || c == ';' ==> !is_white_space(c),
{
}

/// A text starts with another exactly if it is that text with something behind it, and holds another
/// exactly if it is that text with something around it.
pub proof fn held_texts_stand_inside(s: Seq<char>, p: Seq<char>, a: Seq<char>, b: Seq<char>)
    ensures
        starts_with_spec(p + b, p),
        starts_with_spec(s, p) ==> s == p + s.skip(p.len() as int),
        contains_spec(a + p + b, p),
        contains_spec(s, p) ==> exists|i: int|
            #![trigger s.take(i)]
            0 <= i <= s.len() - p.len() && s == s.take(i) + p + s.skip(i + p.len()),
{
    assert((p + b).subrange(0, p.len() as int) =~= p);
    assert((a + p + b).subrange(a.len() as int, (a.len() + p.len()) as int) =~= p);
    assert(occurs_at(a + p + b, p, a.len() as int));
    if starts_with_spec(s, p) {
        assert(s =~= p + s.skip(p.len() as int));
    }
    if contains_spec(s, p) {
        let i = choose|i: int| occurs_at(s, p, i);
        assert(s.subrange(i, i + p.len()) == p);
        assert(s =~= s.take(i) + s.subrange(i, i + p.len()) + s.skip(i + p.len()));
    }
}

/// What follows the last slash holds no slash, and the text ends with it, behind a slash.  Without a
/// slash there is no such part.
pub proof fn last_part_follows_a_slash(s: Seq<char>)
    ensures
        rsplit_spec(s) is None <==> !s.contains('/'),
        rsplit_spec(s) matches Some(part) ==> {
            &&& !part.contains('/')
            &&& part.len() < s.len()
            &&& s[s.len() - part.len() - 1] == '/'
            &&& s.skip(s.len() - part.len()) == part
        },
{
    lemma_last_part(s);
    if s.contains('/') {
        let part = after_last_slash(s);
        if part.len() == s.len() {
            let i = choose|i: int| 0 <= i < s.len() && s[i] == '/';
            assert(s.skip(0) =~= s);
            assert(part.contains('/'));
        }
    }
}

proof fn lemma_last_part(s: Seq<char>)
    ensures
        ({
            let part = after_last_slash(s);
            &&& !part.contains('/')
            &&& part.len() <= s.len()
            &&& part.len() < s.len() ==> s[s.len() - part.len() - 1] == '/'
            &&& s.skip(s.len() - part.len()) == part
        }),
    decreases s.len(),
{
    if s.len() > 0 && s.last() != '/' {
        let r = s.drop_last();
        lemma_last_part(r);
        let q = after_last_slash(r);
        let part = after_last_slash(s);
        assert(s.skip(s.len() - part.len()) =~= r.skip(r.len() - q.len()).push(s.last()));
        if part.contains('/') {
            let i = choose|i: int| 0 <= i < part.len() && part[i] == '/';
            assert(q[i] == '/');
            assert(q.contains('/'));
        }
    } else {
        assert(s.skip(s.len() as int) =~= Seq::empty());
    }
}

/// White space is what ends a line or moves the place on it, the spaces of all widths, and nothing else.
pub proof fn white_space_is_listed(c: char)
    ensures
        is_white_space(c) <==> white_space_codes().contains(c as int),
{
    let n = c as int;
    let codes = white_space_codes();
    if is_white_space(c) {
        if 9 <= n <= 13 {
            assert(codes[n - 9] == n);
        } else if 0x2000 <= n <= 0x200a {
            assert(codes[n - 0x2000 + 9] == n);
        } else {
            assert(codes[5] == 0x20 && codes[6] == 0x85 && codes[7] == 0xa0 && codes[8] == 0x1680);
            assert(codes[20] == 0x2028 && codes[21] == 0x2029 && codes[22] == 0x202f);
            assert(codes[23] == 0x205f && codes[24] == 0x3000);
        }
    }
}

/// The codes of the characters that count as white space.
pub open spec fn white_space_codes() -> Seq<int> {
    seq![
        9int,
        10int,
        11int,
        12int,
        13int,
        0x20int,
        0x85int,
        0xa0int,
        0x1680int,
        0x2000int,
        0x2001int,
        0x2002int,
        0x2003int,
        0x2004int,
        0x2005int,
        0x2006int,
        0x2007int,
        0x2008int,
        0x2009int,
        0x200aint,
        0x2028int,
        0x2029int,
        0x202fint,
        0x205fint,
        0x3000int,
    ]
}

} // verus!
