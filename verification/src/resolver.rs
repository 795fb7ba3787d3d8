//! URL resolution for the shell: normalizing the configured base URL and
//! translating a custom-scheme deep link into the HTTP URL the embedded
//! browser view loads.

use vstd::prelude::*;
use vstd::string::{StrSliceExecFns, StringExecFns};
use crate::text::{trim_chars, trim_start_rec, trim_end_rec, trim_bounds};

verus! {

/// The fixed local address used when no base URL is configured.
pub open spec fn default_base() -> Seq<char> {
    "http://localhost:3000"@
}

/// The sequence with all trailing `/` characters removed.
pub open spec fn strip_trailing_slashes(s: Seq<char>) -> Seq<char>
    decreases s.len(),
{
    if s.len() > 0 && s.last() == '/' {
        strip_trailing_slashes(s.drop_last())
    } else {
        s
    }
}

/// The sequence with all leading `/` characters removed.
pub open spec fn strip_leading_slashes(s: Seq<char>) -> Seq<char>
    decreases s.len(),
{
    if s.len() > 0 && s[0] == '/' {
        strip_leading_slashes(s.drop_first())
    } else {
        s
    }
}

/// A normalized base URL: trimmed, with trailing slashes stripped, and the
/// default address substituted when nothing is left.
pub open spec fn normalize_spec(s: Seq<char>) -> Seq<char> {
    let t = strip_trailing_slashes(trim_chars(s));
    if t.len() == 0 {
        default_base()
    } else {
        t
    }
}

/// The reserved custom scheme marker of the shell's deep links.
pub open spec fn scheme_marker() -> Seq<char> {
    "ess://"@
}

/// Whether `s` starts with the reserved scheme marker.
pub open spec fn has_scheme_prefix(s: Seq<char>) -> bool {
    s.len() >= scheme_marker().len() && s.subrange(0, scheme_marker().len() as int)
        == scheme_marker()
}

/// Whether a raw argument is, once trimmed, a deep link of the shell.
pub open spec fn is_deep_link(dl: Seq<char>) -> bool {
    has_scheme_prefix(trim_chars(dl))
}

/// The HTTP URL a deep link resolves to: the base joined with the link's
/// path remainder by exactly one slash.
pub open spec fn deep_link_target(base: Seq<char>, dl: Seq<char>) -> Seq<char> {
    base + "/"@ + strip_leading_slashes(trim_chars(dl).skip(scheme_marker().len() as int))
}

/// The initial navigation target for an optional launch-time deep link.
pub open spec fn resolve_spec(base: Seq<char>, dl: Option<Seq<char>>) -> Seq<char> {
    match dl {
        Option::None => base,
        Option::Some(d) => if is_deep_link(d) {
            deep_link_target(base, d)
        } else {
            base
        },
    }
}

/// Trailing slashes reaching back exactly to `j` pin
/// `strip_trailing_slashes` down to the prefix up to `j`.
proof fn lemma_strip_trailing_subrange(s: Seq<char>, j: int)
    requires
        0 <= j <= s.len(),
        forall|k: int| j <= k < s.len() ==> s[k] == '/',
        j == 0 || s[j - 1] != '/',
    ensures
        strip_trailing_slashes(s) == s.subrange(0, j),
    decreases s.len() - j,
{
    if j == s.len() {
        assert(s.subrange(0, j) =~= s);
    } else {
        let s1 = s.drop_last();
        assert(s1 =~= s.subrange(0, s.len() - 1));
        lemma_strip_trailing_subrange(s1, j);
        assert(s1.subrange(0, j) =~= s.subrange(0, j));
    }
}

/// Leading slashes reaching up to `i`, and no further, pin
/// `strip_leading_slashes` down to the suffix from `i`.
proof fn lemma_strip_leading_subrange(s: Seq<char>, i: int)
    requires
        0 <= i <= s.len(),
        forall|k: int| 0 <= k < i ==> s[k] == '/',
        i == s.len() || s[i] != '/',
    ensures
        strip_leading_slashes(s) == s.subrange(i, s.len() as int),
    decreases i,
{
    if i == 0 {
        assert(s.subrange(0, s.len() as int) =~= s);
    } else {
        let s1 = s.drop_first();
        assert(s1 =~= s.subrange(1, s.len() as int));
        lemma_strip_leading_subrange(s1, i - 1);
        assert(s1.subrange(i - 1, s1.len() as int) =~= s.subrange(i, s.len() as int));
    }
}

/// Stripping trailing slashes leaves nothing, or a sequence that does not
/// end in a slash.
proof fn lemma_strip_trailing_no_slash(s: Seq<char>)
    ensures
        strip_trailing_slashes(s).len() == 0 || strip_trailing_slashes(s).last() != '/',
    decreases s.len(),
{
    if s.len() > 0 && s.last() == '/' {
        lemma_strip_trailing_no_slash(s.drop_last());
    }
}

/// Law: for every raw input, the normalized base URL is never empty and
/// never ends in a slash.
pub proof fn lemma_normalize_never_empty_never_slash(s: Seq<char>)
    ensures
        normalize_spec(s).len() > 0,
        normalize_spec(s).last() != '/',
{
    lemma_strip_trailing_no_slash(trim_chars(s));
    if strip_trailing_slashes(trim_chars(s)).len() == 0 {
        reveal_strlit("http://localhost:3000");
    }
}

/// Trims the raw configuration value, strips trailing slashes, and falls
/// back to the default local address when nothing is left.
pub fn normalize_base_url(raw: String) -> (r: String)
    ensures
        r@ == normalize_spec(raw@),
        r@.len() > 0,
        r@.last() != '/',
{
    proof {
        lemma_normalize_never_empty_never_slash(raw@);
    }
    let s: &str = raw.as_str();
    let b = trim_bounds(s);
    let i: usize = b.0;
    let j: usize = b.1;
    let mut k: usize = j;
    while k > i && s.get_char(k - 1) == '/'
        invariant
            i <= k <= j <= s@.len(),
            trim_chars(s@) == s@.subrange(i as int, j as int),
            forall|m: int| k <= m < j ==> s@[m] == '/',
        decreases k,
    {
        k -= 1;
    }
    proof {
        let t = s@.subrange(i as int, j as int);
        assert forall|m: int| k - i <= m < t.len() implies t[m] == '/' by {
            assert(t[m] == s@[i + m]);
        }
        if k > i {
            assert(t[k - i - 1] == s@[k - 1]);
        }
        lemma_strip_trailing_subrange(t, k - i);
        assert(t.subrange(0, k - i) =~= s@.subrange(i as int, k as int));
    }
    if k == i {
        "http://localhost:3000".to_owned()
    } else {
        s.substring_char(i, k).to_owned()
    }
}

/// Whether the string itself (untrimmed) starts with the scheme marker.
pub fn starts_with_scheme(s: &str) -> (r: bool)
    ensures
        r == has_scheme_prefix(s@),
{
    proof {
        reveal_strlit("ess://");
    }
    let n: usize = s.unicode_len();
    if n < 6 {
        return false;
    }
    let r = s.get_char(0) == 'e' && s.get_char(1) == 's' && s.get_char(2) == 's'
        && s.get_char(3) == ':' && s.get_char(4) == '/' && s.get_char(5) == '/';
    proof {
        let p = s@.subrange(0, 6);
        assert(p[0] == s@[0] && p[1] == s@[1] && p[2] == s@[2] && p[3] == s@[3] && p[4] == s@[4]
            && p[5] == s@[5]);
        if r {
            assert(p =~= scheme_marker());
        }
    }
    r
}

/// Translates a deep link to the HTTP URL it stands for, or `None` when the
/// trimmed argument does not carry the reserved scheme marker.
pub fn deeplink_to_http(base: &str, deeplink: &str) -> (r: Option<String>)
    ensures
        r is Some <==> is_deep_link(deeplink@),
        r matches Some(u) ==> u@ == deep_link_target(base@, deeplink@),
{
    proof {
        reveal_strlit("ess://");
    }
    let b = trim_bounds(deeplink);
    let i: usize = b.0;
    let j: usize = b.1;
    let ghost t = deeplink@.subrange(i as int, j as int);
    if j - i < 6 {
        return None;
    }
    let has_marker = deeplink.get_char(i) == 'e' && deeplink.get_char(i + 1) == 's'
        && deeplink.get_char(i + 2) == 's' && deeplink.get_char(i + 3) == ':'
        && deeplink.get_char(i + 4) == '/' && deeplink.get_char(i + 5) == '/';
    proof {
        let p = t.subrange(0, 6);
        assert(p[0] == deeplink@[i as int] && p[1] == deeplink@[i + 1] && p[2] == deeplink@[i + 2]
            && p[3] == deeplink@[i + 3] && p[4] == deeplink@[i + 4] && p[5] == deeplink@[i + 5]);
        if has_marker {
            assert(p =~= scheme_marker());
        }
    }
    if !has_marker {
        return None;
    }
    let mut k: usize = i + 6;
    while k < j && deeplink.get_char(k) == '/'
        invariant
            i + 6 <= k <= j <= deeplink@.len(),
            forall|m: int| i + 6 <= m < k ==> deeplink@[m] == '/',
        decreases j - k,
    {
        k += 1;
    }
    proof {
        let rest = t.skip(6);
        assert(rest =~= deeplink@.subrange(i + 6, j as int));
        assert forall|m: int| 0 <= m < k - (i + 6) implies rest[m] == '/' by {
            assert(rest[m] == deeplink@[i + 6 + m]);
        }
        if k < j {
            assert(rest[k - (i + 6)] == deeplink@[k as int]);
        }
        lemma_strip_leading_subrange(rest, k - (i + 6));
        assert(rest.subrange(k - (i + 6), rest.len() as int) =~= deeplink@.subrange(
            k as int,
            j as int,
        ));
    }
    let mut out = base.to_owned();
    out.append("/");
    out.append(deeplink.substring_char(k, j));
    Some(out)
}

/// Picks the deep-link launch argument: the first argument that itself
/// (untrimmed) starts with the scheme marker.
pub fn find_deeplink_arg(args: &Vec<String>) -> (r: Option<String>)
    ensures
        match r {
            Option::None => forall|k: int|
                0 <= k < args@.len() ==> !has_scheme_prefix((#[trigger] args@[k])@),
            Option::Some(u) => exists|k: int|
                0 <= k < args@.len() && u@ == (#[trigger] args@[k])@ && has_scheme_prefix(u@)
                    && (forall|m: int| 0 <= m < k ==> !has_scheme_prefix(args@[m]@)),
        },
{
    let mut idx: usize = 0;
    while idx < args.len()
        invariant
            0 <= idx <= args@.len(),
            forall|m: int| 0 <= m < idx ==> !has_scheme_prefix((#[trigger] args@[m])@),
        decreases args@.len() - idx,
    {
        let a: &String = &args[idx];
        if starts_with_scheme(a.as_str()) {
            let u = a.clone();
            proof {
                assert(0 <= idx < args@.len() && u@ == (args@[idx as int])@
                    && has_scheme_prefix(u@) && (forall|m: int|
                    0 <= m < idx ==> !has_scheme_prefix(args@[m]@)));
            }
            return Some(u);
        }
        idx += 1;
    }
    None
}

/// The initial navigation target: the deep link's HTTP URL when a valid one
/// was passed at launch, the base URL otherwise.
pub fn resolve_start_url(base: &str, deeplink: Option<&str>) -> (r: String)
    ensures
        deeplink is None ==> r@ == resolve_spec(base@, Option::None),
        deeplink matches Some(d) ==> r@ == resolve_spec(base@, Option::Some(d@)),
{
    match deeplink {
        None => base.to_owned(),
        Some(d) => match deeplink_to_http(base, d) {
            Some(u) => u,
            None => base.to_owned(),
        },
    }
}

/// Law: resolving with no deep link returns the base unchanged.
pub proof fn lemma_resolve_none_is_base(base: Seq<char>)
    ensures
        resolve_spec(base, Option::None) == base,
{
}

/// Law: resolution is idempotent; resolving an already-resolved URL with no
/// further deep link returns it unchanged.
pub proof fn lemma_resolve_idempotent(base: Seq<char>, dl: Option<Seq<char>>)
    ensures
        resolve_spec(resolve_spec(base, dl), Option::None) == resolve_spec(base, dl),
{
}

/// Law: a deep link carrying a path maps, for every base, to the base
/// joined with that path.
pub proof fn lemma_resolve_case_path(base: Seq<char>)
    ensures
        resolve_spec(base, Option::Some("ess://c/acme/case/42"@)) == base + "/c/acme/case/42"@,
{
    reveal_strlit("ess://c/acme/case/42");
    reveal_strlit("ess://");
    reveal_strlit("/");
    reveal_strlit("/c/acme/case/42");
    let d = "ess://c/acme/case/42"@;
    assert(trim_start_rec(d) == d);
    assert(trim_end_rec(d) == d);
    assert(d.subrange(0, 6) =~= scheme_marker());
    let rest = d.skip(6);
    assert(rest[0] == d[6]);
    assert(strip_leading_slashes(rest) == rest);
    assert(base + "/"@ + rest =~= base + "/c/acme/case/42"@);
}

/// Law: a deep link that is just the scheme marker resolves, for every
/// base, to the base with a trailing slash join.
pub proof fn lemma_resolve_bare_marker(base: Seq<char>)
    ensures
        resolve_spec(base, Option::Some("ess://"@)) == base + "/"@,
{
    reveal_strlit("ess://");
    reveal_strlit("/");
    let d = "ess://"@;
    assert(trim_start_rec(d) == d);
    assert(trim_end_rec(d) == d);
    assert(d.subrange(0, 6) =~= scheme_marker());
    let rest = d.skip(6);
    assert(rest.len() == 0);
    assert(strip_leading_slashes(rest) == rest);
    assert(base + "/"@ + rest =~= base + "/"@);
}

/// Law: an argument with an unknown scheme is no deep link; resolution
/// ignores it and falls back to the base.
pub proof fn lemma_resolve_unknown_scheme(base: Seq<char>)
    ensures
        resolve_spec(base, Option::Some("notascheme://x"@)) == base,
{
    reveal_strlit("notascheme://x");
    reveal_strlit("ess://");
    let d = "notascheme://x"@;
    assert(trim_start_rec(d) == d);
    assert(trim_end_rec(d) == d);
    assert(d.subrange(0, 6)[0] == 'n');
    assert(scheme_marker()[0] == 'e');
    assert(!has_scheme_prefix(d));
}

} // verus!
