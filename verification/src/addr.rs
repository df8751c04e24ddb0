//! Address normalization: strip a leading `http://` or `https://` scheme
//! from a target string and append the default port `:443` when no colon
//! is present, so that the result is always in `host:port` form.

use vstd::prelude::*;

verus! {

/// The characters of the scheme prefix `http://`.
pub open spec fn http_scheme() -> Seq<char> {
    seq!['h', 't', 't', 'p', ':', '/', '/']
}

/// The characters of the scheme prefix `https://`.
pub open spec fn https_scheme() -> Seq<char> {
    seq!['h', 't', 't', 'p', 's', ':', '/', '/']
}

/// The characters of the default port suffix `:443`.
pub open spec fn default_port_suffix() -> Seq<char> {
    seq![':', '4', '4', '3']
}

/// Whether `p` is a prefix of `s`.
pub open spec fn has_prefix(s: Seq<char>, p: Seq<char>) -> bool {
    p.len() <= s.len() && s.subrange(0, p.len() as int) == p
}

/// Whether `s` contains a colon anywhere.
pub open spec fn has_colon(s: Seq<char>) -> bool {
    exists|i: int| 0 <= i < s.len() && s[i] == ':'
}

/// Remove every leading scheme prefix: as long as the string starts with
/// `https://` or `http://`, drop that prefix.
pub open spec fn strip_schemes(s: Seq<char>) -> Seq<char>
    decreases s.len(),
{
    if has_prefix(s, https_scheme()) {
        strip_schemes(s.skip(8))
    } else if has_prefix(s, http_scheme()) {
        strip_schemes(s.skip(7))
    } else {
        s
    }
}

/// The normalized form of a target string: schemes stripped, and the
/// default port appended when the remainder has no colon.
pub open spec fn normalize_spec(s: Seq<char>) -> Seq<char> {
    let t = strip_schemes(s);
    if has_colon(t) {
        t
    } else {
        t + default_port_suffix()
    }
}

/// What stripping leaves behind never starts with a scheme prefix.
pub proof fn lemma_strip_schemes_no_prefix(s: Seq<char>)
    ensures
        !has_prefix(strip_schemes(s), https_scheme()),
        !has_prefix(strip_schemes(s), http_scheme()),
    decreases s.len(),
{
    if has_prefix(s, https_scheme()) {
        lemma_strip_schemes_no_prefix(s.skip(8));
    } else if has_prefix(s, http_scheme()) {
        lemma_strip_schemes_no_prefix(s.skip(7));
    }
}

/// A string with no leading scheme prefix is left unchanged by stripping.
pub proof fn lemma_strip_schemes_fixed(s: Seq<char>)
    requires
        !has_prefix(s, https_scheme()),
        !has_prefix(s, http_scheme()),
    ensures
        strip_schemes(s) == s,
{
}

/// Appending `:443` to a string with no leading scheme prefix cannot
/// create one: both schemes end in `/`, a character the suffix lacks.
proof fn lemma_no_scheme_after_suffix(t: Seq<char>)
    requires
        !has_prefix(t, https_scheme()),
        !has_prefix(t, http_scheme()),
    ensures
        !has_prefix(t + default_port_suffix(), https_scheme()),
        !has_prefix(t + default_port_suffix(), http_scheme()),
{
    let r = t + default_port_suffix();
    if has_prefix(r, https_scheme()) {
        if t.len() >= 8 {
            assert(t.subrange(0, 8) =~= r.subrange(0, 8));
        } else {
            assert(r.subrange(0, 8)[7] == https_scheme()[7]);
            assert(r[7] == '/');
            assert(r[7] == default_port_suffix()[7 - t.len()]);
        }
    }
    if has_prefix(r, http_scheme()) {
        if t.len() >= 7 {
            assert(t.subrange(0, 7) =~= r.subrange(0, 7));
        } else {
            assert(r.subrange(0, 7)[6] == http_scheme()[6]);
            assert(r[6] == '/');
            assert(r[6] == default_port_suffix()[6 - t.len()]);
        }
    }
}

/// Normalizing is idempotent: a normalized string normalizes to itself.
pub proof fn lemma_normalize_idempotent(s: Seq<char>)
    ensures
        normalize_spec(normalize_spec(s)) == normalize_spec(s),
{
    let t = strip_schemes(s);
    lemma_strip_schemes_no_prefix(s);
    if has_colon(t) {
        lemma_strip_schemes_fixed(t);
    } else {
        let r = t + default_port_suffix();
        lemma_no_scheme_after_suffix(t);
        lemma_strip_schemes_fixed(r);
        assert(r[t.len() as int] == ':');
        assert(has_colon(r));
    }
}

/// Every normalized string contains a colon: the port separator is
/// always present, supplied by the input or by the appended default.
pub proof fn lemma_normalized_has_colon(s: Seq<char>)
    ensures
        has_colon(normalize_spec(s)),
{
    let t = strip_schemes(s);
    if !has_colon(t) {
        let r = t + default_port_suffix();
        assert(r[t.len() as int] == ':');
    }
}

/// Whether the characters of `pat` occur in `server` starting at
/// character position `start`.
#[verifier::loop_isolation(false)]
fn str_prefix_at(server: &str, start: usize, pat: &str, n: usize) -> (b: bool)
    requires
        n == server@.len(),
        start <= n,
    ensures
        b == has_prefix(server@.skip(start as int), pat@),
{
    let m = pat.unicode_len();
    if n - start < m {
        assert(!has_prefix(server@.skip(start as int), pat@));
        return false;
    }
    let mut i: usize = 0;
    while i < m
        invariant
            i <= m,
            forall|j: int| 0 <= j < i ==> server@[start + j] == pat@[j],
        decreases m - i,
    {
        if server.get_char(start + i) != pat.get_char(i) {
            assert(server@.skip(start as int)[i as int] != pat@[i as int]);
            assert(!has_prefix(server@.skip(start as int), pat@)) by {
                if has_prefix(server@.skip(start as int), pat@) {
                    assert(server@.skip(start as int).subrange(0, pat@.len() as int)[i as int]
                        == pat@[i as int]);
                }
            }
            return false;
        }
        i = i + 1;
    }
    assert(server@.skip(start as int).subrange(0, m as int) =~= pat@);
    true
}

/// Whether `s` contains a colon.
#[verifier::loop_isolation(false)]
fn contains_colon(s: &str) -> (b: bool)
    ensures
        b == has_colon(s@),
{
    let n = s.unicode_len();
    let mut i: usize = 0;
    let mut found = false;
    while i < n
        invariant
            i <= n,
            found ==> has_colon(s@),
            !found ==> forall|j: int| 0 <= j < i ==> s@[j] != ':',
        decreases n - i,
    {
        if s.get_char(i) == ':' {
            found = true;
        }
        i = i + 1;
    }
    found
}

/// Strip any leading `http://` or `https://` scheme and, when the
/// remainder has no colon, append the default port `:443`. Always
/// returns a string in `host:port` form; the host itself is not
/// validated here.
#[verifier::loop_isolation(false)]
pub fn format_server_address(server: &str) -> (r: String)
    ensures
        r@ == normalize_spec(server@),
{
    let https_pat = "https://";
    let http_pat = "http://";
    proof {
        reveal_strlit("https://");
        reveal_strlit("http://");
        assert(https_pat@ =~= https_scheme());
        assert(http_pat@ =~= http_scheme());
    }
    let n = server.unicode_len();
    let mut start: usize = 0;
    let mut done = false;
    proof {
        assert(server@.skip(0) =~= server@);
    }
    while !done
        invariant
            start <= n,
            strip_schemes(server@.skip(start as int)) == strip_schemes(server@),
            done ==> !has_prefix(server@.skip(start as int), https_scheme()),
            done ==> !has_prefix(server@.skip(start as int), http_scheme()),
        decreases n - start, (if done { 0int } else { 1int }),
    {
        if str_prefix_at(server, start, https_pat, n) {
            proof {
                assert(server@.skip(start as int).skip(8) =~= server@.skip(start + 8));
            }
            start = start + 8;
        } else if str_prefix_at(server, start, http_pat, n) {
            proof {
                assert(server@.skip(start as int).skip(7) =~= server@.skip(start + 7));
            }
            start = start + 7;
        } else {
            done = true;
        }
    }
    let host = server.substring_char(start, n);
    proof {
        assert(host@ =~= server@.skip(start as int));
        lemma_strip_schemes_fixed(host@);
    }
    let mut out = host.to_owned();
    if !contains_colon(host) {
        out.append(":443");
        proof {
            reveal_strlit(":443");
            assert(":443"@ =~= default_port_suffix());
        }
    }
    out
}

} // verus!
