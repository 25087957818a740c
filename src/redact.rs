//! Redaction of sensitive values before text reaches logs or users.

use vstd::prelude::*;
use vstd::string::StrSliceExecFns;

use crate::known_hosts::{is_white_space, white_space};
use crate::text::{append_str, owned, push_char};

verus! {

/// `a` equals `p` ignoring ASCII case, where `p` is lower case.
pub open spec fn ci_eq(a: char, p: char) -> bool {
    a == p || ('a' <= p && p <= 'z' && (a as u32) + 32 == (p as u32))
}

/// `p` occurs in `s` at `i`, ignoring ASCII case.
pub open spec fn ci_occurs_at(s: Seq<char>, p: Seq<char>, i: int) -> bool {
    &&& 0 <= i
    &&& i + p.len() <= s.len()
    &&& forall|k: int| 0 <= k < p.len() ==> ci_eq(#[trigger] s[i + k], p[k])
}

/// `p` occurs in `s`, ignoring ASCII case.
pub open spec fn ci_contains(s: Seq<char>, p: Seq<char>) -> bool {
    exists|i: int| ci_occurs_at(s, p, i)
}

/// `i` is the first place where `p` occurs in `s`, ignoring ASCII case.
pub open spec fn ci_first_at(s: Seq<char>, p: Seq<char>, i: int) -> bool {
    ci_occurs_at(s, p, i) && forall|j: int| 0 <= j < i ==> !ci_occurs_at(s, p, j)
}

/// A character that ends a sensitive value.
pub open spec fn value_delimiter(c: char) -> bool {
    white_space(c) || c == ',' || c == ';' || c == '"' || c == '\''
}

/// `e` is the first delimiter at or after `from`, or the length.
pub open spec fn value_end_at(s: Seq<char>, from: int, e: int) -> bool {
    &&& from <= e <= s.len()
    &&& forall|j: int| from <= j < e ==> !value_delimiter(#[trigger] s[j])
    &&& (e == s.len() || value_delimiter(s[e]))
}

/// The words whose values are redacted.
pub open spec fn sensitive_patterns() -> Seq<Seq<char>> {
    seq!["password"@, "passwd"@, "secret"@, "token"@, "key"@, "credential"@, "auth"@]
}

/// The four spellings of `word` followed by an assignment: `=`, ` =`, `:`, ` :`.
pub open spec fn assignment_prefixes(word: Seq<char>) -> Seq<Seq<char>> {
    seq![word + "="@, word + " ="@, word + ":"@, word + " :"@]
}

/// The assignment prefixes of each word, word by word.
pub open spec fn prefix_list(ws: Seq<Seq<char>>) -> Seq<Seq<char>>
    decreases ws.len(),
{
    if ws.len() == 0 {
        seq![]
    } else {
        prefix_list(ws.drop_last()) + assignment_prefixes(ws.last())
    }
}

/// One redaction: the value after the first occurrence of `prefix` (up to
/// a delimiter) becomes `[REDACTED]`, if it is not empty.
pub open spec fn redact_step(s: Seq<char>, prefix: Seq<char>) -> Seq<char> {
    if ci_contains(s, prefix) {
        let st = choose|i: int| ci_first_at(s, prefix, i);
        let vs = st + prefix.len();
        let ve = choose|e: int| value_end_at(s, vs, e);
        if ve > vs {
            s.subrange(0, vs) + "[REDACTED]"@ + s.subrange(ve, s.len() as int)
        } else {
            s
        }
    } else {
        s
    }
}

/// The redactions of all prefixes, in order.
pub open spec fn redact_all(s: Seq<char>, ps: Seq<Seq<char>>) -> Seq<char>
    decreases ps.len(),
{
    if ps.len() == 0 {
        s
    } else {
        redact_step(redact_all(s, ps.drop_last()), ps.last())
    }
}

/// Some sensitive word occurs in `s`, ignoring ASCII case.
pub open spec fn mentions_secret(s: Seq<char>) -> bool {
    exists|i: int| 0 <= i < sensitive_patterns().len() && ci_contains(s, sensitive_patterns()[i])
}

/// The redacted form of `s`.
pub open spec fn redacted(s: Seq<char>) -> Seq<char> {
    if mentions_secret(s) {
        redact_all(s, prefix_list(sensitive_patterns()))
    } else {
        s
    }
}

fn ci_match_at(s: &str, p: &str, i: usize) -> (r: bool)
    requires
        i <= s@.len(),
    ensures
        r == ci_occurs_at(s@, p@, i as int),
{
    let n = s.unicode_len();
    let m = p.unicode_len();
    if m > n - i {
        return false;
    }
    let mut k: usize = 0;
    while k < m
        invariant
            n == s@.len(),
            m == p@.len(),
            i + m <= n,
            k <= m,
            forall|j: int| 0 <= j < k ==> ci_eq(#[trigger] s@[i + j], p@[j]),
        decreases m - k,
    {
        let a = s.get_char(i + k);
        let b = p.get_char(k);
        let same = a == b || ('a' <= b && b <= 'z' && (a as u32) + 32 == (b as u32));
        if !same {
            assert(!ci_eq(s@[i + k], p@[k as int]));
            return false;
        }
        k = k + 1;
    }
    true
}

fn ci_find(s: &str, p: &str) -> (r: Option<usize>)
    ensures
        match r {
            Some(i) => ci_first_at(s@, p@, i as int),
            None => !ci_contains(s@, p@),
        },
{
    let n = s.unicode_len();
    let mut i: usize = 0;
    while i < n
        invariant
            n == s@.len(),
            i <= n,
            forall|j: int| 0 <= j < i ==> !ci_occurs_at(s@, p@, j),
        decreases n - i,
    {
        if ci_match_at(s, p, i) {
            return Some(i);
        }
        i = i + 1;
    }
    if ci_match_at(s, p, n) {
        return Some(n);
    }
    assert forall|j: int| !ci_occurs_at(s@, p@, j) by {
        if 0 <= j && j < n as int {
        }
    }
    None
}

fn value_end(s: &str, from: usize) -> (e: usize)
    requires
        from <= s@.len(),
    ensures
        value_end_at(s@, from as int, e as int),
{
    let n = s.unicode_len();
    let mut e = from;
    while e < n
        invariant
            n == s@.len(),
            from <= e <= n,
            forall|j: int| from <= j < e ==> !value_delimiter(#[trigger] s@[j]),
        decreases n - e,
    {
        let c = s.get_char(e);
        if is_white_space(c) || c == ',' || c == ';' || c == '"' || c == '\'' {
            return e;
        }
        e = e + 1;
    }
    e
}

proof fn lemma_first_unique(s: Seq<char>, p: Seq<char>, i: int, j: int)
    requires
        ci_first_at(s, p, i),
        ci_first_at(s, p, j),
    ensures
        i == j,
{
}

proof fn lemma_end_unique(s: Seq<char>, from: int, e: int, f: int)
    requires
        value_end_at(s, from, e),
        value_end_at(s, from, f),
    ensures
        e == f,
{
    if e < f {
        assert(!value_delimiter(s[e]));
    } else if f < e {
        assert(!value_delimiter(s[f]));
    }
}

/// Applies one redaction for `prefix`.
fn redact_once(s: String, prefix: &str) -> (r: String)
    ensures
        r@ == redact_step(s@, prefix@),
{
    match ci_find(s.as_str(), prefix) {
        None => s,
        Some(st) => {
            let m = prefix.unicode_len();
            let n = s.as_str().unicode_len();
            let vs = st + m;
            let ve = value_end(s.as_str(), vs);
            proof {
                let c = choose|i: int| ci_first_at(s@, prefix@, i);
                lemma_first_unique(s@, prefix@, c, st as int);
                let f = choose|e: int| value_end_at(s@, vs as int, e);
                lemma_end_unique(s@, vs as int, f, ve as int);
            }
            if ve > vs {
                let mut out = owned(s.as_str().substring_char(0, vs));
                append_str(&mut out, "[REDACTED]");
                append_str(&mut out, s.as_str().substring_char(ve, n));
                out
            } else {
                s
            }
        },
    }
}

fn patterns() -> (r: Vec<&'static str>)
    ensures
        r@.len() == sensitive_patterns().len(),
        forall|i: int| 0 <= i < r@.len() ==> #[trigger] r@[i]@ == sensitive_patterns()[i],
{
    let r = vec!["password", "passwd", "secret", "token", "key", "credential", "auth"];
    r
}

/// Replaces the values of `password=`, `token: ` and similar assignments
/// (the first of each spelling, for each sensitive word, ignoring ASCII
/// case) with `[REDACTED]`. Text that mentions no sensitive word is
/// returned as it is.
pub fn redact_sensitive(input: &str) -> (r: String)
    ensures
        r@ == redacted(input@),
{
    let ps = patterns();
    let mut any = false;
    let mut i: usize = 0;
    while i < ps.len()
        invariant
            ps@.len() == sensitive_patterns().len(),
            forall|k: int| 0 <= k < ps@.len() ==> #[trigger] ps@[k]@ == sensitive_patterns()[k],
            i <= ps@.len(),
            any == exists|k: int| 0 <= k < i && ci_contains(input@, sensitive_patterns()[k]),
        decreases ps@.len() - i,
    {
        if ci_find(input, ps[i]).is_some() {
            any = true;
        }
        i = i + 1;
    }
    if !any {
        return owned(input);
    }
    let mut result = owned(input);
    let mut w: usize = 0;
    assert(sensitive_patterns().subrange(0, 0) =~= Seq::<Seq<char>>::empty());
    while w < ps.len()
        invariant
            ps@.len() == sensitive_patterns().len(),
            forall|k: int| 0 <= k < ps@.len() ==> #[trigger] ps@[k]@ == sensitive_patterns()[k],
            w <= ps@.len(),
            result@ == redact_all(input@, prefix_list(sensitive_patterns().subrange(0, w as int))),
        decreases ps@.len() - w,
    {
        let word = ps[w];
        let ghost before = prefix_list(sensitive_patterns().subrange(0, w as int));
        assert(sensitive_patterns().subrange(0, w + 1).drop_last() =~= sensitive_patterns().subrange(0, w as int));
        assert(sensitive_patterns().subrange(0, w + 1).last() == word@);
        let ghost all = prefix_list(sensitive_patterns().subrange(0, w + 1));
        assert(all == before + assignment_prefixes(word@));
        let mut p1 = owned(word);
        append_str(&mut p1, "=");
        let mut p2 = owned(word);
        append_str(&mut p2, " =");
        let mut p3 = owned(word);
        append_str(&mut p3, ":");
        let mut p4 = owned(word);
        append_str(&mut p4, " :");
        result = redact_once(result, p1.as_str());
        result = redact_once(result, p2.as_str());
        result = redact_once(result, p3.as_str());
        result = redact_once(result, p4.as_str());
        proof {
            reveal_with_fuel(redact_all, 5);
            assert(all.drop_last().drop_last().drop_last().drop_last() =~= before);
            assert(all.drop_last().drop_last().drop_last().last() == p1@);
            assert(all.drop_last().drop_last().last() == p2@);
            assert(all.drop_last().last() == p3@);
            assert(all.last() == p4@);
        }
        w = w + 1;
    }
    assert(sensitive_patterns().subrange(0, w as int) =~= sensitive_patterns());
    result
}

/// The index of the last `.` in `s`, if any.
pub open spec fn is_last_dot(s: Seq<char>, i: int) -> bool {
    0 <= i < s.len() && s[i] == '.' && forall|j: int| i < j < s.len() ==> s[j] != '.'
}

/// Only ASCII digits and dots.
pub open spec fn digits_and_dots(s: Seq<char>) -> bool {
    forall|j: int| 0 <= j < s.len() ==> ('0' <= #[trigger] s[j] && s[j] <= '9') || s[j] == '.'
}

/// The address with its last part hidden, when it looks like an IPv4
/// address.
pub open spec fn redacted_ip(ip: Seq<char>) -> Seq<char> {
    if exists|i: int| is_last_dot(ip, i) {
        let i = choose|i: int| is_last_dot(ip, i);
        if digits_and_dots(ip.subrange(0, i)) {
            ip.subrange(0, i) + ".xxx"@
        } else {
            ip
        }
    } else {
        ip
    }
}

/// Replaces the last part of an address made of digits and dots by `xxx`;
/// anything else is returned as it is.
pub fn redact_ip(ip: &str) -> (r: String)
    ensures
        r@ == redacted_ip(ip@),
{
    let n = ip.unicode_len();
    let mut i: usize = n;
    let mut found = false;
    while i > 0 && !found
        invariant
            n == ip@.len(),
            i <= n,
            found ==> i > 0 && ip@[i - 1] == '.',
            forall|j: int| i <= j < n ==> ip@[j] != '.',
        decreases i + if found { 0int } else { 1int },
    {
        if ip.get_char(i - 1) == '.' {
            found = true;
        } else {
            i = i - 1;
        }
    }
    if !found {
        assert(!exists|k: int| is_last_dot(ip@, k));
        return owned(ip);
    }
    let dot = i - 1;
    proof {
        assert(is_last_dot(ip@, dot as int));
        let c = choose|k: int| is_last_dot(ip@, k);
        assert(c == dot as int) by {
            if c < dot as int {
                assert(ip@[dot as int] == '.');
            } else if c > dot as int {
                assert(ip@[c] == '.');
            }
        }
    }
    let mut k: usize = 0;
    while k < dot
        invariant
            dot < n == ip@.len(),
            k <= dot,
            redacted_ip(ip@) == if digits_and_dots(ip@.subrange(0, dot as int)) {
                ip@.subrange(0, dot as int) + ".xxx"@
            } else {
                ip@
            },
            forall|j: int| 0 <= j < k ==> ('0' <= #[trigger] ip@[j] && ip@[j] <= '9') || ip@[j] == '.',
        decreases dot - k,
    {
        let c = ip.get_char(k);
        if !(('0' <= c && c <= '9') || c == '.') {
            assert(!digits_and_dots(ip@.subrange(0, dot as int))) by {
                assert(ip@.subrange(0, dot as int)[k as int] == c);
            }
            return owned(ip);
        }
        k = k + 1;
    }
    let mut out = owned(ip.substring_char(0, dot));
    append_str(&mut out, ".xxx");
    out
}

/// `n` stars.
pub open spec fn stars(n: nat) -> Seq<char>
    decreases n,
{
    if n == 0 { seq![] } else { stars((n - 1) as nat).push('*') }
}

fn star_string(n: usize) -> (r: String)
    ensures
        r@ == stars(n as nat),
{
    let mut s = String::new();
    let mut i: usize = 0;
    while i < n
        invariant
            i <= n,
            s@ == stars(i as nat),
        decreases n - i,
    {
        push_char(&mut s, '*');
        i = i + 1;
    }
    s
}

/// The masked form of `s`: all stars when it is at most twice `visible`
/// long, else its first and last `visible` characters around at most
/// eight stars.
pub open spec fn masked(s: Seq<char>, visible: nat) -> Seq<char> {
    if s.len() <= 2 * visible {
        stars(s.len())
    } else {
        let middle = (s.len() - 2 * visible) as nat;
        s.subrange(0, visible as int) + stars(if middle < 8 { middle } else { 8 }) + s.subrange(
            s.len() - visible,
            s.len() as int,
        )
    }
}

/// Masks `s`, showing only its first and last `visible_chars` characters.
pub fn mask_string(s: &str, visible_chars: usize) -> (r: String)
    ensures
        r@ == masked(s@, visible_chars as nat),
{
    let n = s.unicode_len();
    if n as u128 <= 2 * (visible_chars as u128) {
        return star_string(n);
    }
    let middle = n - 2 * visible_chars;
    let mut out = owned(s.substring_char(0, visible_chars));
    let st = star_string(if middle < 8 { middle } else { 8 });
    append_str(&mut out, st.as_str());
    append_str(&mut out, s.substring_char(n - visible_chars, n));
    out
}

/// The path with the home directory `home`, when it starts the path,
/// written as `~`.
pub open spec fn redacted_path(path: Seq<char>, home: Option<Seq<char>>) -> Seq<char> {
    match home {
        Some(h) => if h.len() <= path.len() && path.subrange(0, h.len() as int) == h {
            "~"@ + path.subrange(h.len() as int, path.len() as int)
        } else {
            path
        },
        None => path,
    }
}

/// Writes the home directory `home` at the start of `path` as `~`.
pub fn redact_path_with_home(path: &str, home: Option<&str>) -> (r: String)
    ensures
        r@ == redacted_path(path@, match home {
            Some(h) => Some(h@),
            None => None,
        }),
{
    match home {
        Some(h) => {
            let n = path.unicode_len();
            let m = h.unicode_len();
            if m <= n && crate::text::same_text(path.substring_char(0, m), h) {
                let mut out = owned("~");
                append_str(&mut out, path.substring_char(m, n));
                out
            } else {
                owned(path)
            }
        },
        None => owned(path),
    }
}

/// An argument vector fit for diagnostics: the argument after each `-i` is
/// replaced by `[REDACTED]`, every other one is redacted as text.
pub open spec fn redacted_args(a: Seq<Seq<char>>) -> Seq<Seq<char>> {
    Seq::new(
        a.len(),
        |i: int|
            if i > 0 && a[i - 1] == "-i"@ {
                "[REDACTED]"@
            } else {
                redacted(a[i])
            },
    )
}

/// Redacts an argument vector before it is written anywhere: identity file
/// paths and sensitive option values are hidden.
pub fn redact_args(args: &[String]) -> (r: Vec<String>)
    ensures
        r@.len() == args@.len(),
        forall|i: int| 0 <= i < r@.len() ==> #[trigger] r@[i]@ == redacted_args(
            args@.map_values(|s: String| s@),
        )[i],
{
    let ghost texts = args@.map_values(|s: String| s@);
    let mut out: Vec<String> = Vec::new();
    let mut i: usize = 0;
    while i < args.len()
        invariant
            i <= args@.len(),
            texts == args@.map_values(|s: String| s@),
            out@.len() == i,
            forall|k: int| 0 <= k < i ==> #[trigger] out@[k]@ == redacted_args(texts)[k],
        decreases args@.len() - i,
    {
        let after_flag = i > 0 && crate::text::same_text(args[i - 1].as_str(), "-i");
        if after_flag {
            out.push(owned("[REDACTED]"));
        } else {
            out.push(redact_sensitive(args[i].as_str()));
        }
        proof {
            assert(texts[i as int] == args@[i as int]@);
            if i > 0 {
                assert(texts[i - 1] == args@[i - 1]@);
            }
        }
        i = i + 1;
    }
    out
}

} // verus!
