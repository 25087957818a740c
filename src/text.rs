//! Character-level helpers shared by the formatting and parsing code.

use vstd::prelude::*;
use vstd::string::StrSliceExecFns;

verus! {

/// The decimal digit character for `d < 10`.
pub open spec fn digit_char(d: nat) -> char {
    if d == 0 { '0' }
    else if d == 1 { '1' }
    else if d == 2 { '2' }
    else if d == 3 { '3' }
    else if d == 4 { '4' }
    else if d == 5 { '5' }
    else if d == 6 { '6' }
    else if d == 7 { '7' }
    else if d == 8 { '8' }
    else { '9' }
}

/// The shortest decimal spelling of `n`, as `u64::to_string` writes it.
pub open spec fn decimal(n: nat) -> Seq<char>
    decreases n,
{
    if n < 10 {
        seq![digit_char(n)]
    } else {
        decimal(n / 10).push(digit_char(n % 10))
    }
}

/// Relies on `String::push`: appends one character.
#[verifier::external_body]
pub(crate) fn push_char(s: &mut String, c: char)
    ensures
        final(s)@ == old(s)@.push(c),
{
    s.push(c)
}

fn digit_of(d: u64) -> (c: char)
    requires
        d < 10,
    ensures
        c == digit_char(d as nat),
{
    if d == 0 { '0' }
    else if d == 1 { '1' }
    else if d == 2 { '2' }
    else if d == 3 { '3' }
    else if d == 4 { '4' }
    else if d == 5 { '5' }
    else if d == 6 { '6' }
    else if d == 7 { '7' }
    else if d == 8 { '8' }
    else { '9' }
}

/// Writes `n` in decimal.
pub fn decimal_string(n: u64) -> (r: String)
    ensures
        r@ == decimal(n as nat),
    decreases n,
{
    if n < 10 {
        let mut s = String::new();
        push_char(&mut s, digit_of(n));
        assert(s@ =~= decimal(n as nat));
        s
    } else {
        let mut s = decimal_string(n / 10);
        push_char(&mut s, digit_of(n % 10));
        s
    }
}

/// A copy of `s` as an owned string.
pub fn owned(s: &str) -> (r: String)
    ensures
        r@ == s@,
{
    String::from_str(s)
}

/// Appends all of `t` to `s`.
pub fn append_str(s: &mut String, t: &str)
    ensures
        final(s)@ == old(s)@ + t@,
{
    s.append(t)
}

/// `p` occurs in `s` starting at index `i`.
pub open spec fn occurs_at(s: Seq<char>, p: Seq<char>, i: int) -> bool {
    0 <= i && i + p.len() <= s.len() && s.subrange(i, i + p.len()) == p
}

/// `p` occurs somewhere in `s`.
pub open spec fn contains(s: Seq<char>, p: Seq<char>) -> bool {
    exists|i: int| occurs_at(s, p, i)
}

/// Whether `p` occurs in `s` starting at `i`, checked character by character.
pub fn matches_at(s: &str, p: &str, i: usize) -> (r: bool)
    requires
        i <= s@.len(),
    ensures
        r == occurs_at(s@, p@, i as int),
{
    let n = s.unicode_len();
    let m = p.unicode_len();
    if m > n - i {
        return false;
    }
    let mut k: usize = 0;
    while k < m
        invariant
            n == s@.len(),
            m == p@.len(),
            i + m <= n,
            k <= m,
            forall|j: int| 0 <= j < k ==> s@[i + j] == p@[j],
        decreases m - k,
    {
        if s.get_char(i + k) != p.get_char(k) {
            assert(s@.subrange(i as int, i + m)[k as int] != p@[k as int]);
            return false;
        }
        k = k + 1;
    }
    assert(s@.subrange(i as int, i + m) =~= p@);
    true
}

/// The least index at which `p` occurs in `s`, if any.
pub fn find(s: &str, p: &str) -> (r: Option<usize>)
    ensures
        match r {
            Some(i) => occurs_at(s@, p@, i as int) && forall|j: int|
                0 <= j < i ==> !occurs_at(s@, p@, j),
            None => !contains(s@, p@),
        },
{
    let n = s.unicode_len();
    let mut i: usize = 0;
    while i < n
        invariant
            n == s@.len(),
            i <= n,
            forall|j: int| 0 <= j < i ==> !occurs_at(s@, p@, j),
        decreases n - i,
    {
        if matches_at(s, p, i) {
            return Some(i);
        }
        i = i + 1;
    }
    if matches_at(s, p, n) {
        return Some(n);
    }
    assert forall|j: int| !occurs_at(s@, p@, j) by {
        if 0 <= j && j < n as int {
        }
    }
    None
}

/// Whether `p` occurs in `s`.
pub fn contains_str(s: &str, p: &str) -> (r: bool)
    ensures
        r == contains(s@, p@),
{
    find(s, p).is_some()
}

/// Whether the character `c` occurs in `s`.
pub fn contains_char(s: &str, c: char) -> (r: bool)
    ensures
        r == s@.contains(c),
{
    let n = s.unicode_len();
    let mut i: usize = 0;
    while i < n
        invariant
            n == s@.len(),
            forall|j: int| 0 <= j < i ==> s@[j] != c,
        decreases n - i,
    {
        if s.get_char(i) == c {
            return true;
        }
        i = i + 1;
    }
    false
}

/// What `str::to_lowercase` makes of a string: a function of its characters
/// alone (full Unicode case mapping).
pub uninterp spec fn lower_of(s: Seq<char>) -> Seq<char>;

/// Only ASCII characters.
pub open spec fn ascii_text(s: Seq<char>) -> bool {
    forall|i: int| 0 <= i < s.len() ==> (#[trigger] s[i] as u32) < 128
}

/// `d` is the lower-case form of the ASCII character `c`: `A`..`Z` become
/// `a`..`z`, everything else stays.
pub open spec fn ascii_lowered(c: char, d: char) -> bool {
    if 'A' <= c && c <= 'Z' {
        d as u32 == c as u32 + 32
    } else {
        d == c
    }
}

/// Relies on `str::to_lowercase`: the lower-case form of `s`; the Unicode
/// lower-case mapping of an ASCII text is its ASCII lower-case form.
#[verifier::external_body]
pub(crate) fn lowercase(s: &str) -> (r: String)
    ensures
        r@ == lower_of(s@),
        ascii_text(s@) ==> r@.len() == s@.len() && forall|i: int|
            0 <= i < s@.len() ==> ascii_lowered(s@[i], #[trigger] r@[i]),
{
    s.to_lowercase()
}

/// `k` is the index of the first `c` in `s`, or the length when there is none.
pub open spec fn is_first(s: Seq<char>, c: char, k: int) -> bool {
    &&& 0 <= k <= s.len()
    &&& forall|j: int| 0 <= j < k ==> s[j] != c
    &&& (k == s.len() || s[k] == c)
}

/// The index of the first `c` in `s`, or the length when there is none.
pub open spec fn first_index(s: Seq<char>, c: char) -> int {
    choose|k: int| is_first(s, c, k)
}

/// There is one first occurrence.
pub proof fn lemma_first_index(s: Seq<char>, c: char, k: int)
    requires
        is_first(s, c, k),
    ensures
        first_index(s, c) == k,
{
    let f = first_index(s, c);
    assert(is_first(s, c, f));
    if f < k {
        assert(s[f] == c);
    } else if k < f {
        assert(s[k] == c);
    }
}

/// The part of `s` before its first `c` (all of `s` when there is none).
pub open spec fn before(s: Seq<char>, c: char) -> Seq<char> {
    s.subrange(0, first_index(s, c))
}

/// Scans `s` from `from` for `c`: the index of the first `c` at or after
/// `from`, or the length when there is none.
pub fn index_from(s: &str, c: char, from: usize) -> (k: usize)
    requires
        from <= s@.len(),
    ensures
        from <= k <= s@.len(),
        forall|j: int| from <= j < k ==> s@[j] != c,
        k == s@.len() || s@[k as int] == c,
{
    let n = s.unicode_len();
    let mut k = from;
    while k < n
        invariant
            n == s@.len(),
            from <= k <= n,
            forall|j: int| from <= j < k ==> s@[j] != c,
        decreases n - k,
    {
        if s.get_char(k) == c {
            return k;
        }
        k = k + 1;
    }
    k
}

/// The decimal spelling of a signed number, with a leading `-` when it is
/// negative.
pub open spec fn signed_decimal(n: int) -> Seq<char> {
    if n < 0 {
        seq!['-'] + decimal((-n) as nat)
    } else {
        decimal(n as nat)
    }
}

/// Writes `n` in decimal, with a leading `-` when it is negative.
pub fn signed_decimal_string(n: i64) -> (r: String)
    ensures
        r@ == signed_decimal(n as int),
{
    if n < 0 {
        let magnitude: u64 = (0i128 - n as i128) as u64;
        let mut s = owned("-");
        let digits = decimal_string(magnitude);
        append_str(&mut s, digits.as_str());
        proof {
            reveal_strlit("-");
            assert(s@ =~= seq!['-'] + decimal((-n) as nat));
        }
        s
    } else {
        decimal_string(n as u64)
    }
}

/// Whether `a` and `b` hold the same characters.
pub fn same_text(a: &str, b: &str) -> (r: bool)
    ensures
        r == (a@ == b@),
{
    let n = a.unicode_len();
    if n != b.unicode_len() {
        return false;
    }
    let mut i: usize = 0;
    while i < n
        invariant
            n == a@.len(),
            n == b@.len(),
            i <= n,
            forall|j: int| 0 <= j < i ==> a@[j] == b@[j],
        decreases n - i,
    {
        if a.get_char(i) != b.get_char(i) {
            return false;
        }
        i = i + 1;
    }
    assert(a@ =~= b@);
    true
}

} // verus!
