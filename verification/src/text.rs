//! Text of numbers, options and lists.

use vstd::prelude::*;
use vstd::string::*;

verus! {

/// The character of a decimal digit.
pub open spec fn digit(d: nat) -> char {
    (48 + d) as char
}

/// The decimal notation of a number, without leading zeros.
pub open spec fn decimal(n: nat) -> Seq<char>
    decreases n,
{
    if n < 10 {
        seq![digit(n)]
    } else {
        decimal(n / 10).push(digit(n % 10))
    }
}

/// Two different digits have different characters, and none of them is a slash.
proof fn lemma_digit(a: nat, b: nat)
    requires
        a < 10,
        b < 10,
    ensures
        digit(a) == digit(b) ==> a == b,
        digit(a) != '/',
{
    assert(digit(a) as nat == 48 + a);
    assert(digit(b) as nat == 48 + b);
    assert('/' as nat == 47);
}

/// Different numbers have different decimal notations.
pub proof fn decimal_is_injective(a: nat, b: nat)
    requires
        decimal(a) == decimal(b),
    ensures
        a == b,
    decreases a,
{
    let x = decimal(a);
    let y = decimal(b);
    if a < 10 && b < 10 {
        lemma_digit(a, b);
        assert(x[0] == digit(a));
        assert(y[0] == digit(b));
    } else if a < 10 {
        lemma_decimal_len(b / 10);
        assert(y.len() == decimal(b / 10).len() + 1);
        assert(false);
    } else if b < 10 {
        lemma_decimal_len(a / 10);
        assert(x.len() == decimal(a / 10).len() + 1);
        assert(false);
    } else {
        lemma_digit(a % 10, b % 10);
        assert(x.last() == digit(a % 10));
        assert(y.last() == digit(b % 10));
        assert(x.drop_last() =~= decimal(a / 10));
        assert(y.drop_last() =~= decimal(b / 10));
        decimal_is_injective(a / 10, b / 10);
        assert(a == 10 * (a / 10) + a % 10);
        assert(b == 10 * (b / 10) + b % 10);
    }
}

proof fn lemma_decimal_len(n: nat)
    ensures
        decimal(n).len() >= 1,
    decreases n,
{
    if n >= 10 {
        lemma_decimal_len(n / 10);
    }
}

/// A decimal notation is not empty and holds digits only, so no slash.
pub proof fn decimal_has_no_slash(n: nat)
    ensures
        decimal(n).len() >= 1,
        !decimal(n).contains('/'),
    decreases n,
{
    lemma_decimal_len(n);
    if n < 10 {
        lemma_digit(n, n);
    } else {
        decimal_has_no_slash(n / 10);
        lemma_digit(n % 10, n % 10);
        let s = decimal(n);
        let t = decimal(n / 10);
        assert forall|i: int| 0 <= i < s.len() implies s[i] != '/' by {
            if i < t.len() {
                assert(s[i] == t[i]);
                assert(t.contains(t[i]));
            }
        }
    }
}

fn digit_text(d: u64) -> (r: &'static str)
    requires
        d < 10,
    ensures
        r@ == seq![digit(d as nat)],
{
    proof {
        reveal_strlit("0");
        reveal_strlit("1");
        reveal_strlit("2");
        reveal_strlit("3");
        reveal_strlit("4");
        reveal_strlit("5");
        reveal_strlit("6");
        reveal_strlit("7");
        reveal_strlit("8");
        reveal_strlit("9");
    }
    let r: &'static str = match d {
        0 => "0",
        1 => "1",
        2 => "2",
        3 => "3",
        4 => "4",
        5 => "5",
        6 => "6",
        7 => "7",
        8 => "8",
        _ => "9",
    };
    assert(r@ =~= seq![digit(d as nat)]);
    r
}

/// The decimal notation of a `u64`.
pub fn u64_text(n: u64) -> (r: String)
    ensures
        r@ == decimal(n as nat),
    decreases n,
{
    if n < 10 {
        digit_text(n).to_owned()
    } else {
        let head = u64_text(n / 10);
        let r = head.concat(digit_text(n % 10));
        assert(r@ =~= decimal(n as nat));
        r
    }
}

/// The decimal notation of a `u128`.
pub fn u128_text(n: u128) -> (r: String)
    ensures
        r@ == decimal(n as nat),
    decreases n,
{
    if n < 10 {
        digit_text(n as u64).to_owned()
    } else {
        let head = u128_text(n / 10);
        let r = head.concat(digit_text((n % 10) as u64));
        assert(r@ =~= decimal(n as nat));
        r
    }
}

/// The decimal notation of an integer, with a minus sign where it is negative.
pub open spec fn integer(n: int) -> Seq<char> {
    if n < 0 {
        "-"@ + decimal((-n) as nat)
    } else {
        decimal(n as nat)
    }
}

/// The decimal notation of an `i128`.
pub fn i128_text(n: i128) -> (r: String)
    ensures
        r@ == integer(n as int),
{
    if n < 0 {
        let magnitude: u128 = (-(n + 1)) as u128 + 1;
        "-".to_owned().concat(u128_text(magnitude).as_str())
    } else {
        u128_text(n as u128)
    }
}

/// `"true"` or `"false"`.
pub open spec fn bool_spec(b: bool) -> Seq<char> {
    if b {
        "true"@
    } else {
        "false"@
    }
}

/// `"true"` or `"false"`.
pub fn bool_text(b: bool) -> (r: &'static str)
    ensures
        r@ == bool_spec(b),
{
    if b {
        "true"
    } else {
        "false"
    }
}

/// The items with a separator between each two of them.
pub open spec fn join_spec(items: Seq<Seq<char>>, sep: Seq<char>) -> Seq<char>
    decreases items.len(),
{
    if items.len() == 0 {
        Seq::empty()
    } else if items.len() == 1 {
        items[0]
    } else {
        join_spec(items.drop_last(), sep) + sep + items.last()
    }
}

/// The contents of a list of strings.
pub open spec fn views(items: Seq<String>) -> Seq<Seq<char>> {
    items.map_values(|s: String| s@)
}

/// The items with a separator between each two of them.
pub fn join(items: &Vec<String>, sep: &str) -> (r: String)
    ensures
        r@ == join_spec(views(items@), sep@),
{
    let mut r = String::new();
    let mut i: usize = 0;
    let ghost all = views(items@);
    assert(r@ =~= join_spec(all.take(0), sep@));
    while i < items.len()
        invariant
            i <= items.len(),
            all == views(items@),
            r@ == join_spec(all.take(i as int), sep@),
        decreases items.len() - i,
    {
        proof {
            assert(all.take(i + 1).drop_last() =~= all.take(i as int));
            assert(all.take(i + 1).last() == items[i as int]@);
        }
        if i > 0 {
            r.append(sep);
        }
        r.append(items[i].as_str());
        proof {
            if i == 0 {
                assert(all.take(0).len() == 0);
                assert(r@ =~= items[0]@);
                assert(all.take(1)[0] == items[0]@);
            }
            assert(r@ =~= join_spec(all.take(i + 1), sep@));
        }
        i = i + 1;
    }
    assert(all.take(items.len() as int) =~= all);
    r
}

/// The number that decimal digits stand for.
pub open spec fn number(s: Seq<char>) -> int
    decreases s.len(),
{
    if s.len() == 0 {
        0
    } else {
        number(s.drop_last()) * 10 + (s.last() as int - '0' as int)
    }
}

/// A decimal notation holds digits only and stands for its number; it has no leading zero, but for
/// that of zero itself.
pub proof fn decimal_stands_for_its_number(n: nat, i: int)
    ensures
        number(decimal(n)) == n,
        decimal(n).len() >= 1,
        0 <= i < decimal(n).len() ==> '0' <= decimal(n)[i] <= '9',
        n > 0 ==> decimal(n)[0] != '0',
        n == 0 ==> decimal(n) == seq!['0'],
    decreases n,
{
    reveal_with_fuel(number, 2);
    assert('0' as int == 48 && '9' as int == 57);
    assert(digit(n % 10) as int == 48 + n % 10);
    if n < 10 {
        assert(decimal(n).drop_last() =~= Seq::empty());
    } else {
        decimal_stands_for_its_number(n / 10, i);
        assert(decimal(n).drop_last() =~= decimal(n / 10));
        assert(decimal(n)[0] == decimal(n / 10)[0]);
    }
}

/// A list that is made of two is joined as the two are, with the separator between them; a single item
/// stands by itself, and nothing where there is none.
pub proof fn joined_lists_are_joined(
    a: Seq<Seq<char>>,
    b: Seq<Seq<char>>,
    x: Seq<char>,
    sep: Seq<char>,
)
    ensures
        join_spec(Seq::empty(), sep) == Seq::<char>::empty(),
        join_spec(seq![x], sep) == x,
        a.len() > 0 && b.len() > 0 ==> join_spec(a + b, sep) == join_spec(a, sep) + sep + join_spec(
            b,
            sep,
        ),
    decreases b.len(),
{
    if a.len() > 0 && b.len() > 0 {
        assert((a + b).drop_last() =~= a + b.drop_last());
        assert((a + b).last() == b.last());
        if b.len() == 1 {
            assert(a + b.drop_last() =~= a);
        } else {
            joined_lists_are_joined(a, b.drop_last(), x, sep);
            assert(join_spec(a + b, sep) =~= join_spec(a, sep) + sep + join_spec(b, sep));
        }
    }
}

/// An integer is written as its digits, and after a minus sign exactly if it is negative.
pub proof fn negative_integers_have_a_sign(n: int)
    ensures
        n >= 0 ==> number(integer(n)) == n && integer(n)[0] != '-',
        n < 0 ==> integer(n)[0] == '-' && number(integer(n).skip(1)) == -n,
{
    reveal_strlit("-");
    if n < 0 {
        assert(integer(n).skip(1) =~= decimal((-n) as nat));
        decimal_stands_for_its_number((-n) as nat, 0);
    } else {
        decimal_stands_for_its_number(n as nat, 0);
        assert('-' as int == 45 && '0' as int == 48);
    }
}

/// Truth is written as a word.
pub proof fn truth_is_a_word(b: bool)
    ensures
        bool_spec(true) == "true"@,
        bool_spec(false) == "false"@,
        bool_spec(b) == bool_spec(!b) ==> false,
{
    reveal_strlit("true");
    reveal_strlit("false");
    assert("true"@.len() == 4);
    assert("false"@.len() == 5);
}

/// A decimal notation ends where its digits do: the number and what follows it can be told from the
/// two together.
pub proof fn decimals_end_with_their_digits(a: nat, s: Seq<char>, b: nat, t: Seq<char>)
    requires
        decimal(a) + s == decimal(b) + t,
        s.len() > 0 ==> !('0' <= s[0] <= '9'),
        t.len() > 0 ==> !('0' <= t[0] <= '9'),
    ensures
        a == b,
        s == t,
{
    let x = decimal(a);
    let y = decimal(b);
    assert((x + s).len() == (y + t).len());
    if x.len() < y.len() {
        decimal_stands_for_its_number(b, x.len() as int);
        assert((x + s)[x.len() as int] == s[0]);
        assert((y + t)[x.len() as int] == y[x.len() as int]);
    } else if y.len() < x.len() {
        decimal_stands_for_its_number(a, y.len() as int);
        assert((y + t)[y.len() as int] == t[0]);
        assert((x + s)[y.len() as int] == x[y.len() as int]);
    } else {
        assert((x + s).take(x.len() as int) =~= x);
        assert((y + t).take(y.len() as int) =~= y);
        decimal_is_injective(a, b);
        assert((x + s).skip(x.len() as int) =~= s);
        assert((y + t).skip(y.len() as int) =~= t);
    }
}

} // verus!
