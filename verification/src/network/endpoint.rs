//! Endpoints: where a session listens and what it connects to.

use vstd::prelude::*;
use vstd::string::*;
use crate::strs;

verus! {

/// An endpoint without its scheme, if that is `udp/`, `tcp/` or `quic/`.
pub open spec fn strip_spec(ep: Seq<char>) -> Seq<char> {
    if strs::starts_with_spec(ep, "udp/"@) || strs::starts_with_spec(ep, "tcp/"@) {
        ep.skip(4)
    } else if strs::starts_with_spec(ep, "quic/"@) {
        ep.skip(5)
    } else {
        ep
    }
}

fn strip_endpoint_scheme(ep: &str) -> (r: &str)
    ensures
        r@ == strip_spec(ep@),
{
    proof {
        reveal_strlit("udp/");
        reveal_strlit("tcp/");
        reveal_strlit("quic/");
    }
    let n: usize = ep.unicode_len();
    if strs::starts_with(ep, "udp/") || strs::starts_with(ep, "tcp/") {
        ep.substring_char(4, n)
    } else if strs::starts_with(ep, "quic/") {
        ep.substring_char(5, n)
    } else {
        ep
    }
}

/// An endpoint with the given scheme: the endpoint itself, trimmed, if it has that scheme, and
/// otherwise with the scheme in place of its own.
pub open spec fn with_scheme_spec(endpoint: Seq<char>, scheme: Seq<char>) -> Seq<char> {
    let ep = strs::trim_spec(endpoint);
    if strs::starts_with_spec(ep, scheme) {
        ep
    } else {
        scheme + strip_spec(ep)
    }
}

fn with_scheme(endpoint: &str, scheme: &str) -> (r: String)
    ensures
        r@ == with_scheme_spec(endpoint@, scheme@),
{
    let ep = strs::trim(endpoint);
    if strs::starts_with(ep, scheme) {
        ep.to_owned()
    } else {
        scheme.to_owned().concat(strip_endpoint_scheme(ep))
    }
}

/// The endpoint of a QUIC transport with TLS.
pub fn format_quic_endpoint(endpoint: &str) -> (r: String)
    ensures
        r@ == with_scheme_spec(endpoint@, "quic/"@),
{
    with_scheme(endpoint, "quic/")
}

/// The endpoint of a plain TCP transport.
pub fn format_tcp_endpoint(endpoint: &str) -> (r: String)
    ensures
        r@ == with_scheme_spec(endpoint@, "tcp/"@),
{
    with_scheme(endpoint, "tcp/")
}

/// The endpoint of a best-effort UDP transport.
pub fn format_udp_endpoint(endpoint: &str) -> (r: String)
    ensures
        r@ == with_scheme_spec(endpoint@, "udp/"@),
{
    with_scheme(endpoint, "udp/")
}

/// A list of parameters with another one at its end.
pub open spec fn with_param(s: Seq<char>, param: Seq<char>) -> Seq<char> {
    if s.last() == '?' || s.last() == ';' {
        s + param
    } else {
        s + ";"@ + param
    }
}

fn push_param(s: String, param: &str) -> (r: String)
    requires
        s@.len() > 0,
    ensures
        r@ == with_param(s@, param@),
{
    let last = s.as_str().get_char(s.as_str().unicode_len() - 1);
    if last == '?' || last == ';' {
        s.concat(param)
    } else {
        s.concat(";").concat(param)
    }
}

/// An endpoint with the parameters that make a UDP transport reliable and multiplexed.  A
/// parameter that is there stays as it is; without any parameter both are added.
pub open spec fn plain_spec(endpoint: Seq<char>) -> Seq<char> {
    let core = strip_spec(strs::trim_spec(endpoint));
    let has_rel = strs::contains_spec(core, "rel="@);
    let has_multistream = strs::contains_spec(core, "multistream="@);
    let base = "udp/"@ + core;
    if has_rel && has_multistream {
        base
    } else if !core.contains('?') {
        base + "?rel=1;multistream=1"@
    } else {
        let s = if has_rel {
            base
        } else {
            with_param(base, "rel=1"@)
        };
        if has_multistream {
            s
        } else {
            with_param(s, "multistream=1"@)
        }
    }
}

proof fn lemma_char_contained(s: Seq<char>, p: Seq<char>)
    requires
        p.len() == 1,
    ensures
        strs::contains_spec(s, p) == s.contains(p[0]),
{
    if strs::contains_spec(s, p) {
        let i = choose|i: int| strs::occurs_at(s, p, i);
        assert(s.subrange(i, i + 1)[0] == s[i]);
        assert(s.contains(p[0]));
    }
    if s.contains(p[0]) {
        let i = choose|i: int| 0 <= i < s.len() && s[i] == p[0];
        assert(strs::occurs_at(s, p, i));
    }
}

/// The endpoint of a QUIC transport that needs no certificate: reliable, multiplexed UDP.
pub fn format_quic_plain_endpoint(endpoint: &str) -> (r: String)
    ensures
        r@ == plain_spec(endpoint@),
{
    let core = strip_endpoint_scheme(strs::trim(endpoint));
    let has_rel = strs::contains(core, "rel=");
    let has_multistream = strs::contains(core, "multistream=");
    let mut s = "udp/".to_owned().concat(core);
    if has_rel && has_multistream {
        return s;
    }
    proof {
        reveal_strlit("?");
        reveal_strlit("udp/");
        lemma_char_contained(core@, "?"@);
    }
    if !strs::contains(core, "?") {
        return s.concat("?rel=1;multistream=1");
    }
    if !has_rel {
        s = push_param(s, "rel=1");
    }
    if !has_multistream {
        s = push_param(s, "multistream=1");
    }
    s
}

/// The same as [`format_quic_plain_endpoint`].
pub fn format_udp_reliable_endpoint(endpoint: &str) -> (r: String)
    ensures
        r@ == plain_spec(endpoint@),
{
    format_quic_plain_endpoint(endpoint)
}

/// The rest of a trimmed endpoint behind its scheme ends as the endpoint does.
proof fn lemma_strip_end(ep: Seq<char>)
    ensures
        strip_spec(ep).len() <= ep.len(),
        strip_spec(ep).len() > 0 ==> strip_spec(ep).last() == ep.last(),
{
    reveal_strlit("udp/");
    reveal_strlit("tcp/");
    reveal_strlit("quic/");
}

/// An endpoint with a scheme starts with the scheme, and giving it that scheme again changes
/// nothing.
pub proof fn scheme_is_stable(endpoint: Seq<char>, scheme: Seq<char>)
    requires
        scheme == "quic/"@ || scheme == "tcp/"@ || scheme == "udp/"@,
    ensures
        ({
            let r = with_scheme_spec(endpoint, scheme);
            strs::starts_with_spec(r, scheme) && with_scheme_spec(r, scheme) == r
        }),
{
    reveal_strlit("udp/");
    reveal_strlit("tcp/");
    reveal_strlit("quic/");
    let ep = strs::trim_spec(endpoint);
    let r = with_scheme_spec(endpoint, scheme);
    strs::trimmed_has_no_white_ends(endpoint);
    lemma_strip_end(ep);
    if !strs::starts_with_spec(ep, scheme) {
        assert(r.first() == scheme.first());
        assert(r.subrange(0, scheme.len() as int) =~= scheme);
        if strip_spec(ep).len() > 0 {
            assert(r.last() == ep.last());
        } else {
            assert(r.last() == '/');
        }
    }
    strs::trim_keeps_trimmed(r);
}

/// A reliable endpoint has the scheme `udp/` and both parameters, and making it reliable again
/// changes nothing.
pub proof fn reliable_endpoint_is_stable(endpoint: Seq<char>)
    ensures
        ({
            let r = plain_spec(endpoint);
            &&& strs::starts_with_spec(r, "udp/"@)
            &&& strs::contains_spec(r, "rel="@)
            &&& strs::contains_spec(r, "multistream="@)
            &&& plain_spec(r) == r
        }),
{
    reveal_strlit("udp/");
    reveal_strlit("tcp/");
    reveal_strlit("quic/");
    reveal_strlit("rel=");
    reveal_strlit("multistream=");
    reveal_strlit("rel=1");
    reveal_strlit("multistream=1");
    reveal_strlit("?rel=1;multistream=1");
    reveal_strlit(";");
    let ep = strs::trim_spec(endpoint);
    let core = strip_spec(ep);
    let has_rel = strs::contains_spec(core, "rel="@);
    let has_multistream = strs::contains_spec(core, "multistream="@);
    let base = "udp/"@ + core;
    let r = plain_spec(endpoint);
    let empty = Seq::<char>::empty();
    // What comes behind the scheme.
    let tail = r.skip(4);
    strs::trimmed_has_no_white_ends(endpoint);
    lemma_strip_end(ep);
    assert(strs::occurs_at("rel=1"@, "rel="@, 0));
    assert(strs::occurs_at("multistream=1"@, "multistream="@, 0));
    assert(r.take(4) =~= "udp/"@);
    if has_rel && has_multistream {
        assert(tail =~= core);
    } else if !core.contains('?') {
        assert(strs::occurs_at("?rel=1;multistream=1"@, "rel="@, 1));
        assert(strs::occurs_at("?rel=1;multistream=1"@, "multistream="@, 7));
        strs::part_is_contained(core, "?rel=1;multistream=1"@, empty, "rel="@);
        strs::part_is_contained(core, "?rel=1;multistream=1"@, empty, "multistream="@);
        assert(tail =~= core + "?rel=1;multistream=1"@ + empty);
    } else {
        let s = if has_rel {
            base
        } else {
            with_param(base, "rel=1"@)
        };
        let sep1 = s.skip(4);
        if has_rel {
            assert(sep1 =~= core);
        } else {
            let head = sep1.take(sep1.len() - 5);
            assert(sep1 =~= head + "rel=1"@ + empty);
            strs::part_is_contained(head, "rel=1"@, empty, "rel="@);
        }
        assert(strs::contains_spec(sep1, "rel="@));
        if has_multistream {
            assert(tail =~= sep1);
            let head = sep1.skip(core.len() as int);
            assert(tail =~= empty + core + head);
            strs::part_is_contained(empty, core, head, "multistream="@);
        } else {
            let more = tail.skip(sep1.len() as int);
            assert(tail =~= empty + sep1 + more);
            strs::part_is_contained(empty, sep1, more, "rel="@);
            let head = tail.take(tail.len() - 13);
            assert(tail =~= head + "multistream=1"@ + empty);
            strs::part_is_contained(head, "multistream=1"@, empty, "multistream="@);
        }
    }
    assert(strs::contains_spec(tail, "rel="@));
    assert(strs::contains_spec(tail, "multistream="@));
    assert(r =~= "udp/"@ + tail + empty);
    strs::part_is_contained("udp/"@, tail, empty, "rel="@);
    strs::part_is_contained("udp/"@, tail, empty, "multistream="@);
    assert(strs::starts_with_spec(r, "udp/"@));
    assert(r.first() == 'u');
    lemma_long_enough(tail);
    assert(r.last() == tail.last());
    if has_rel && has_multistream {
        assert(r.last() == ep.last());
    } else if core.contains('?') && has_multistream {
        assert(r.last() == '1');
    } else {
        assert(r.last() == '1');
    }
    strs::trim_keeps_trimmed(r);
    assert(strip_spec(r) =~= tail);
}

proof fn lemma_long_enough(s: Seq<char>)
    requires
        strs::contains_spec(s, "rel="@),
    ensures
        s.len() >= 4,
{
    reveal_strlit("rel=");
}

/// A scheme that is there is replaced and the address stays; where there is none, the scheme is put in
/// front.  An address is what stands behind `udp/`, `tcp/` or `quic/`, or the whole endpoint.
pub proof fn schemes_are_replaced(address: Seq<char>, present: Seq<char>, wanted: Seq<char>)
    requires
        present == "quic/"@ || present == "tcp/"@ || present == "udp/"@,
        wanted == "quic/"@ || wanted == "tcp/"@ || wanted == "udp/"@,
    ensures
        strip_spec(present + address) == address,
        !strs::starts_with_spec(address, "udp/"@) && !strs::starts_with_spec(address, "tcp/"@)
            && !strs::starts_with_spec(address, "quic/"@) ==> strip_spec(address) == address,
        strs::trim_spec(present + address) == present + address ==> with_scheme_spec(
            present + address,
            wanted,
        ) == wanted + address,
        strs::trim_spec(address) == address && !strs::starts_with_spec(address, "udp/"@)
            && !strs::starts_with_spec(address, "tcp/"@) && !strs::starts_with_spec(
            address,
            "quic/"@,
        ) ==> with_scheme_spec(address, wanted) == wanted + address,
{
    reveal_strlit("udp/");
    reveal_strlit("tcp/");
    reveal_strlit("quic/");
    let s = present + address;
    assert(s.subrange(0, present.len() as int) =~= present);
    assert(strs::starts_with_spec(s, present));
    assert(s.skip(present.len() as int) =~= address);
    assert(s[0] == present[0]);
    if present == "quic/"@ {
        if strs::starts_with_spec(s, "udp/"@) {
            assert(s.subrange(0, 4)[0] == 'u');
        }
        if strs::starts_with_spec(s, "tcp/"@) {
            assert(s.subrange(0, 4)[0] == 't');
        }
    }
    if strs::starts_with_spec(s, wanted) && wanted != present {
        assert(s.subrange(0, wanted.len() as int)[0] == wanted[0]);
    }
}

/// A parameter goes behind what is there, with a semicolon between them unless a `?` or a semicolon
/// already ends it.
pub proof fn parameters_are_set_apart(s: Seq<char>, param: Seq<char>)
    requires
        s.len() > 0,
    ensures
        s[s.len() - 1] == '?' || s[s.len() - 1] == ';' ==> with_param(s, param) == s + param,
        s[s.len() - 1] != '?' && s[s.len() - 1] != ';' ==> with_param(s, param) == s + seq![';']
            + param,
{
    reveal_strlit(";");
    assert(";"@ =~= seq![';']);
}

/// A reliable endpoint is the address with the scheme in front, and behind it those of the two
/// parameters that the address does not hold: the reliability first, then the streams.
pub proof fn missing_parameters_are_added(endpoint: Seq<char>)
    ensures
        ({
            let address = strip_spec(strs::trim_spec(endpoint));
            let base = "udp/"@ + address;
            let rel = strs::contains_spec(address, "rel="@);
            let streams = strs::contains_spec(address, "multistream="@);
            let r = plain_spec(endpoint);
            &&& r.take(base.len() as int) == base
            &&& rel && streams ==> r == base
            &&& !address.contains('?') && !(rel && streams) ==> r == base + "?rel=1;multistream=1"@
            &&& address.contains('?') && rel && !streams ==> r == with_param(
                base,
                "multistream=1"@,
            )
            &&& address.contains('?') && !rel && streams ==> r == with_param(base, "rel=1"@)
            &&& address.contains('?') && !rel && !streams ==> r == with_param(base, "rel=1"@)
                + ";multistream=1"@
        }),
{
    reveal_strlit("udp/");
    reveal_strlit(";");
    reveal_strlit("rel=1");
    reveal_strlit("multistream=1");
    reveal_strlit(";multistream=1");
    let address = strip_spec(strs::trim_spec(endpoint));
    let base = "udp/"@ + address;
    let r = plain_spec(endpoint);
    let one = with_param(base, "rel=1"@);
    assert(one.last() == '1');
    assert(with_param(one, "multistream=1"@) =~= one + ";multistream=1"@);
    assert(r.take(base.len() as int) =~= base);
}

} // verus!
