//! The textual tunnel forms accepted from users: `remote_port:local_port`,
//! `remote_port:local_host:local_port` and the canonical four-field form.

use vstd::prelude::*;
use vstd::string::StrSliceExecFns;

use crate::error::CoreError;
use crate::profile::{default_bind_address, default_host, TunnelSpec};
use crate::text::{owned, push_char};

verus! {

/// The value of a string of decimal digits.
pub open spec fn digits_value(d: Seq<char>) -> nat
    decreases d.len(),
{
    if d.len() == 0 {
        0
    } else {
        digits_value(d.drop_last()) * 10 + ((d.last() as u32 - '0' as u32) as nat)
    }
}

/// Only decimal digits.
pub open spec fn all_digits(d: Seq<char>) -> bool {
    forall|i: int| 0 <= i < d.len() ==> '0' <= #[trigger] d[i] <= '9'
}

/// What `u16`'s `FromStr` reads from `s`: an optional `+`, then at least
/// one decimal digit, with a value that fits in 16 bits.
pub open spec fn port_value(s: Seq<char>) -> Option<u16> {
    let d = if s.len() > 0 && s[0] == '+' { s.drop_first() } else { s };
    if d.len() > 0 && all_digits(d) && digits_value(d) <= u16::MAX {
        Some(digits_value(d) as u16)
    } else {
        None
    }
}

proof fn lemma_digits_grow(d: Seq<char>, i: int)
    requires
        0 <= i <= d.len(),
        all_digits(d),
    ensures
        digits_value(d.subrange(0, i)) <= digits_value(d),
    decreases d.len() - i,
{
    if i < d.len() {
        lemma_digits_grow(d, i + 1);
        assert(d.subrange(0, i + 1).drop_last() =~= d.subrange(0, i));
    } else {
        assert(d.subrange(0, i) =~= d);
    }
}

/// Reads a port number the way `u16`'s `FromStr` does.
pub fn parse_port(s: &str) -> (r: Option<u16>)
    ensures
        r == port_value(s@),
{
    let n = s.unicode_len();
    let start: usize = if n > 0 && s.get_char(0) == '+' { 1 } else { 0 };
    let ghost d = if s@.len() > 0 && s@[0] == '+' { s@.drop_first() } else { s@ };
    assert(d =~= s@.subrange(start as int, n as int));
    if start == n {
        return None;
    }
    let mut v: u32 = 0;
    let mut i: usize = start;
    assert(d.subrange(0, 0) =~= Seq::<char>::empty());
    while i < n
        invariant
            n == s@.len(),
            start <= i <= n,
            d == s@.subrange(start as int, n as int),
            d == (if s@.len() > 0 && s@[0] == '+' { s@.drop_first() } else { s@ }),
            v as nat == digits_value(d.subrange(0, i - start)),
            v <= u16::MAX,
            all_digits(d.subrange(0, i - start)),
        decreases n - i,
    {
        let c = s.get_char(i);
        if !('0' <= c && c <= '9') {
            assert(d[i - start] == c);
            assert(!all_digits(d));
            return None;
        }
        assert(d.subrange(0, i + 1 - start).drop_last() =~= d.subrange(0, i - start));
        assert(d.subrange(0, i + 1 - start).last() == c);
        let next: u32 = v * 10 + (c as u32 - '0' as u32);
        i = i + 1;
        if next > u16::MAX as u32 {
            proof {
                let k = i - start;
                assert(digits_value(d.subrange(0, k as int)) == next);
                if all_digits(d) {
                    lemma_digits_grow(d, k as int);
                }
            }
            return None;
        }
        v = next;
    }
    assert(d.subrange(0, n - start) =~= d);
    Some(v as u16)
}

/// The fields of `s` between colons and the field being read.
pub open spec fn colon_state(s: Seq<char>) -> (Seq<Seq<char>>, Seq<char>)
    decreases s.len(),
{
    if s.len() == 0 {
        (seq![], seq![])
    } else {
        let (fs, cur) = colon_state(s.drop_last());
        if s.last() == ':' {
            (fs.push(cur), seq![])
        } else {
            (fs, cur.push(s.last()))
        }
    }
}

/// The colon-separated fields of `s`, empty ones included.
pub open spec fn colon_fields(s: Seq<char>) -> Seq<Seq<char>> {
    colon_state(s).0.push(colon_state(s).1)
}

/// Splits `s` at every colon.
pub fn split_colons(s: &str) -> (r: Vec<String>)
    ensures
        r@.len() == colon_fields(s@).len(),
        forall|i: int| 0 <= i < r@.len() ==> #[trigger] r@[i]@ == colon_fields(s@)[i],
{
    let n = s.unicode_len();
    let mut fs: Vec<String> = Vec::new();
    let mut cur = String::new();
    let mut i: usize = 0;
    assert(s@.subrange(0, 0) =~= Seq::<char>::empty());
    while i < n
        invariant
            n == s@.len(),
            i <= n,
            fs@.len() == colon_state(s@.subrange(0, i as int)).0.len(),
            forall|k: int| 0 <= k < fs@.len() ==> #[trigger] fs@[k]@ == colon_state(
                s@.subrange(0, i as int),
            ).0[k],
            cur@ == colon_state(s@.subrange(0, i as int)).1,
        decreases n - i,
    {
        let c = s.get_char(i);
        assert(s@.subrange(0, i + 1).drop_last() =~= s@.subrange(0, i as int));
        if c == ':' {
            fs.push(cur);
            cur = String::new();
        } else {
            push_char(&mut cur, c);
        }
        i = i + 1;
    }
    assert(s@.subrange(0, n as int) =~= s@);
    fs.push(cur);
    fs
}

/// The message for a text with the wrong number of fields.
pub open spec fn tunnel_format_text() -> Seq<char> {
    "Invalid tunnel spec format. Use remote_port:local_port, remote_port:local_host:local_port or remote_bind:remote_port:local_host:local_port"@
}

/// The tunnel that `text` describes, or why it describes none.
pub open spec fn tunnel_from_text(text: Seq<char>) -> Result<(Seq<char>, u16, Seq<char>, u16), Seq<char>> {
    let f = colon_fields(text);
    let (rb, rp, lh, lp) = if f.len() == 2 {
        (default_host(), f[0], default_host(), f[1])
    } else if f.len() == 3 {
        (default_host(), f[0], f[1], f[2])
    } else {
        (f[0], f[1], f[2], f[3])
    };
    if f.len() < 2 || f.len() > 4 {
        Err(tunnel_format_text())
    } else if port_value(rp) is None {
        Err("Invalid remote port"@)
    } else if port_value(lp) is None {
        Err("Invalid local port"@)
    } else {
        Ok((rb, port_value(rp)->0, lh, port_value(lp)->0))
    }
}

/// Reads a tunnel given as `remote_port:local_port`,
/// `remote_port:local_host:local_port` or
/// `remote_bind:remote_port:local_host:local_port`; missing hosts are
/// `localhost`.
pub fn parse_tunnel_spec(spec: &str) -> (r: Result<TunnelSpec, CoreError>)
    ensures
        match tunnel_from_text(spec@) {
            Ok((rb, rp, lh, lp)) => r matches Ok(t) && t.remote_bind@ == rb && t.remote_port == rp
                && t.local_host@ == lh && t.local_port == lp,
            Err(m) => r matches Err(CoreError::ProfileInvalid(e)) && e@ == m,
        },
{
    let parts = split_colons(spec);
    let k = parts.len();
    if k < 2 || k > 4 {
        return Err(
            CoreError::ProfileInvalid(
                owned(
                    "Invalid tunnel spec format. Use remote_port:local_port, remote_port:local_host:local_port or remote_bind:remote_port:local_host:local_port",
                ),
            ),
        );
    }
    let (rb, rp, lh, lp) = if k == 2 {
        (default_bind_address(), 0usize, default_bind_address(), 1usize)
    } else if k == 3 {
        (default_bind_address(), 0usize, parts[1].clone(), 2usize)
    } else {
        (parts[0].clone(), 1usize, parts[2].clone(), 3usize)
    };
    let remote_port = match parse_port(parts[rp].as_str()) {
        Some(p) => p,
        None => {
            return Err(CoreError::ProfileInvalid(owned("Invalid remote port")));
        },
    };
    let local_port = match parse_port(parts[lp].as_str()) {
        Some(p) => p,
        None => {
            return Err(CoreError::ProfileInvalid(owned("Invalid local port")));
        },
    };
    Ok(TunnelSpec { remote_bind: rb, remote_port, local_host: lh, local_port })
}

proof fn lemma_colon_free_suffix(x: Seq<char>, y: Seq<char>)
    requires
        !y.contains(':'),
    ensures
        colon_state(x + y) == (colon_state(x).0, colon_state(x).1 + y),
    decreases y.len(),
{
    if y.len() == 0 {
        assert(x + y =~= x);
        assert(colon_state(x).1 + y =~= colon_state(x).1);
    } else {
        let y0 = y.drop_last();
        assert(!y0.contains(':')) by {
            if y0.contains(':') {
                let i = choose|i: int| 0 <= i < y0.len() && y0[i] == ':';
                assert(y[i] == ':');
            }
        }
        lemma_colon_free_suffix(x, y0);
        assert((x + y).drop_last() =~= x + y0);
        assert((x + y).last() == y.last());
        assert(y.last() != ':') by {
            assert(y[y.len() - 1] == y.last());
        }
        assert(colon_state(x).1 + y0 + seq![y.last()] =~= colon_state(x).1 + y);
        assert((colon_state(x).1 + y0).push(y.last()) =~= colon_state(x).1 + y);
    }
}

proof fn lemma_colon_field_then_colon(x: Seq<char>, y: Seq<char>)
    requires
        !y.contains(':'),
    ensures
        colon_state(x + y + seq![':']) == (colon_state(x).0.push(colon_state(x).1 + y), Seq::<char>::empty()),
{
    lemma_colon_free_suffix(x, y);
    assert((x + y + seq![':']).drop_last() =~= x + y);
}

proof fn lemma_digit_value(k: nat)
    requires
        k < 10,
    ensures
        ((crate::text::digit_char(k) as u32 - '0' as u32) as nat) == k,
        '0' <= crate::text::digit_char(k) <= '9',
{
}

proof fn lemma_decimal_colon_free(n: nat)
    ensures
        !crate::text::decimal(n).contains(':'),
        crate::text::decimal(n).len() > 0,
        all_digits(crate::text::decimal(n)),
        digits_value(crate::text::decimal(n)) == n,
    decreases n,
{
    let d = crate::text::decimal(n);
    if n >= 10 {
        lemma_decimal_colon_free(n / 10);
        lemma_digit_value(n % 10);
        let p = crate::text::decimal(n / 10);
        assert(d == p.push(crate::text::digit_char(n % 10)));
        assert(d.drop_last() =~= p);
        assert(digits_value(d) == (n / 10) * 10 + n % 10);
        assert((n / 10) * 10 + n % 10 == n) by (nonlinear_arith);
    } else {
        lemma_digit_value(n);
        assert(d.drop_last() =~= Seq::<char>::empty());
        assert(digits_value(Seq::<char>::empty()) == 0);
        assert(d.last() == crate::text::digit_char(n));
        assert(digits_value(d) == digits_value(d.drop_last()) * 10 + ((d.last() as u32 - '0' as u32) as nat));
    }
    assert(all_digits(d)) by {
        if n >= 10 {
            let p = crate::text::decimal(n / 10);
            assert forall|i: int| 0 <= i < d.len() implies '0' <= #[trigger] d[i] <= '9' by {
                if i < p.len() {
                    assert(d[i] == p[i]);
                }
            }
        }
    }
    assert(!d.contains(':')) by {
        if d.contains(':') {
            let i = choose|i: int| 0 <= i < d.len() && d[i] == ':';
            assert('0' <= d[i] <= '9');
        }
    }
}

/// Reading the canonical form of a tunnel gives the tunnel back, when
/// neither host holds a colon.
pub proof fn lemma_tunnel_text_round_trip(t: TunnelSpec)
    requires
        !t.remote_bind@.contains(':'),
        !t.local_host@.contains(':'),
    ensures
        tunnel_from_text(t.canonical()) == Ok::<(Seq<char>, u16, Seq<char>, u16), Seq<char>>(
            (t.remote_bind@, t.remote_port, t.local_host@, t.local_port),
        ),
{
    reveal_strlit(":");
    let rb = t.remote_bind@;
    let rp = crate::text::decimal(t.remote_port as nat);
    let lh = t.local_host@;
    let lp = crate::text::decimal(t.local_port as nat);
    lemma_decimal_colon_free(t.remote_port as nat);
    lemma_decimal_colon_free(t.local_port as nat);
    let c = seq![':'];
    assert(":"@ =~= c);
    let s1 = rb + c;
    let s2 = s1 + rp + c;
    let s3 = s2 + lh + c;
    let s4 = s3 + lp;
    assert(t.canonical() =~= s4);
    assert(Seq::<char>::empty() + rb + c =~= s1);
    lemma_colon_field_then_colon(Seq::<char>::empty(), rb);
    assert(colon_state(s1) == (seq![rb], Seq::<char>::empty())) by {
        assert(Seq::<char>::empty() + rb =~= rb);
        assert(seq![] + rb + c =~= s1);
        assert(Seq::<Seq<char>>::empty().push(Seq::<char>::empty() + rb) =~= seq![rb]);
    }
    lemma_colon_field_then_colon(s1, rp);
    assert(Seq::<char>::empty() + rp =~= rp);
    assert(colon_state(s2) == (seq![rb, rp], Seq::<char>::empty())) by {
        assert(seq![rb].push(Seq::<char>::empty() + rp) =~= seq![rb, rp]);
    }
    lemma_colon_field_then_colon(s2, lh);
    assert(colon_state(s3) == (seq![rb, rp, lh], Seq::<char>::empty())) by {
        assert(Seq::<char>::empty() + lh =~= lh);
        assert(seq![rb, rp].push(Seq::<char>::empty() + lh) =~= seq![rb, rp, lh]);
    }
    lemma_colon_free_suffix(s3, lp);
    assert(colon_fields(s4) =~= seq![rb, rp, lh, lp]) by {
        assert(Seq::<char>::empty() + lp =~= lp);
    }
    assert(port_value(rp) == Some(t.remote_port));
    assert(port_value(lp) == Some(t.local_port));
}

} // verus!
