//! Screening of SSH arguments for options that would run commands.

use vstd::prelude::*;

use crate::text::{
    ascii_lowered, ascii_text, occurs_at, contains, contains_char, contains_str, first_index, index_from, lemma_first_index, lower_of,
    lowercase, owned,
};

verus! {

/// All text after the first `=` (empty when there is no `=`): the value of
/// a `key=value` argument.
pub open spec fn value_field(a: Seq<char>) -> Seq<char> {
    let i = first_index(a, '=');
    if i == a.len() {
        Seq::empty()
    } else {
        a.subrange(i + 1, a.len() as int)
    }
}

/// A value holding a command separator, a pipe or a backtick.
pub open spec fn has_shell_meta(v: Seq<char>) -> bool {
    v.contains(';') || v.contains('|') || v.contains('`')
}

/// Why an argument is refused, if it is.
pub open spec fn arg_problem(a: Seq<char>) -> Option<Seq<char>> {
    if a.contains('\0') {
        Some("Argument contains null byte"@)
    } else if contains(lower_of(a), "proxycommand"@) && has_shell_meta(value_field(a)) {
        Some("Potentially dangerous ProxyCommand detected"@)
    } else if contains(lower_of(a), "permitlocalcommand"@) {
        Some("PermitLocalCommand option is not allowed"@)
    } else if contains(lower_of(a), "localcommand"@) {
        Some("LocalCommand option is not allowed"@)
    } else {
        None
    }
}

/// An argument that the screen lets through.
pub open spec fn arg_safe(a: Seq<char>) -> bool {
    &&& !a.contains('\0')
    &&& !contains(lower_of(a), "localcommand"@)
    &&& !contains(lower_of(a), "permitlocalcommand"@)
    &&& !(contains(lower_of(a), "proxycommand"@) && has_shell_meta(value_field(a)))
}

/// Whether the value field of `a` holds a shell metacharacter.
fn value_has_shell_meta(a: &str) -> (r: bool)
    ensures
        r == has_shell_meta(value_field(a@)),
{
    let n = a.unicode_len();
    let i = index_from(a, '=', 0);
    proof {
        lemma_first_index(a@, '=', i as int);
    }
    if i == n {
        assert(value_field(a@) =~= Seq::<char>::empty());
        return false;
    }
    let k = n;
    let mut j = i + 1;
    while j < k
        invariant
            i + 1 <= j <= k <= n,
            n == a@.len(),
            value_field(a@) == a@.subrange(i + 1, k as int),
            forall|t: int| i + 1 <= t < j ==> a@[t] != ';' && a@[t] != '|' && a@[t] != '`',
        decreases k - j,
    {
        let c = a.get_char(j);
        if c == ';' || c == '|' || c == '`' {
            assert(value_field(a@)[j - (i + 1)] == c);
            return true;
        }
        j = j + 1;
    }
    assert forall|t: int| 0 <= t < value_field(a@).len() implies value_field(a@)[t] != ';'
        && value_field(a@)[t] != '|' && value_field(a@)[t] != '`' by {
        assert(value_field(a@)[t] == a@[i + 1 + t]);
    }
    false
}

/// An ASCII text that names `LocalCommand`.
pub open spec fn names_local_command(a: Seq<char>) -> bool {
    ascii_text(a) && contains(a, "LocalCommand"@)
}

/// Lowering an ASCII text keeps an occurrence of `LocalCommand`, in lower
/// case, at the same place.
proof fn lemma_lowered_local_command(a: Seq<char>, l: Seq<char>, i: int)
    requires
        l.len() == a.len(),
        forall|k: int| 0 <= k < a.len() ==> ascii_lowered(a[k], #[trigger] l[k]),
        occurs_at(a, "LocalCommand"@, i),
    ensures
        occurs_at(l, "localcommand"@, i),
{
    reveal_strlit("LocalCommand");
    reveal_strlit("localcommand");
    let up = "LocalCommand"@;
    let low = "localcommand"@;
    assert(up =~= seq!['L', 'o', 'c', 'a', 'l', 'C', 'o', 'm', 'm', 'a', 'n', 'd']);
    assert(low =~= seq!['l', 'o', 'c', 'a', 'l', 'c', 'o', 'm', 'm', 'a', 'n', 'd']);
    assert forall|k: int| 0 <= k < 12 implies l[i + k] == low[k] by {
        assert(a.subrange(i, i + 12)[k] == up[k]);
        assert(a[i + k] == up[k]);
        assert(ascii_lowered(a[i + k], l[i + k]));
        if k == 0 || k == 5 {
            assert(l[i + k] as u32 == low[k] as u32);
            vstd::utf8::char_u32_cast(l[i + k], l[i + k] as u32);
            vstd::utf8::char_u32_cast(low[k], low[k] as u32);
        } else {
            assert(!('A' <= a[i + k] && a[i + k] <= 'Z'));
        }
    }
    assert(l.subrange(i, i + 12) =~= low);
}

/// Why one argument is refused, if it is.
pub fn check_arg(a: &str) -> (r: Option<String>)
    ensures
        match r {
            Some(m) => arg_problem(a@) == Some(m@),
            None => arg_problem(a@) is None,
        },
        names_local_command(a@) ==> r is Some,
{
    if contains_char(a, '\0') {
        return Some(owned("Argument contains null byte"));
    }
    let lower = lowercase(a);
    proof {
        if names_local_command(a@) {
            let i = choose|i: int| occurs_at(a@, "LocalCommand"@, i);
            lemma_lowered_local_command(a@, lower@, i);
        }
    }
    if contains_str(lower.as_str(), "proxycommand") && value_has_shell_meta(a) {
        return Some(owned("Potentially dangerous ProxyCommand detected"));
    }
    if contains_str(lower.as_str(), "permitlocalcommand") {
        return Some(owned("PermitLocalCommand option is not allowed"));
    }
    if contains_str(lower.as_str(), "localcommand") {
        return Some(owned("LocalCommand option is not allowed"));
    }
    None
}

/// Refuses an argument vector that holds a NUL character, a
/// `LocalCommand` or `PermitLocalCommand` option, or a `ProxyCommand` whose
/// value holds `;`, `|` or a backtick. The error describes the first
/// refused argument.
pub fn validate_args(args: &[String]) -> (r: Result<(), String>)
    ensures
        match r {
            Ok(()) => forall|i: int| 0 <= i < args@.len() ==> arg_problem(#[trigger] args@[i]@) is None,
            Err(m) => exists|i: int|
                0 <= i < args@.len() && arg_problem(args@[i]@) == Some(m@) && forall|j: int|
                    0 <= j < i ==> arg_problem(#[trigger] args@[j]@) is None,
        },
        (exists|i: int| 0 <= i < args@.len() && names_local_command(#[trigger] args@[i]@)) ==> r is Err,
{
    let mut i: usize = 0;
    while i < args.len()
        invariant
            i <= args@.len(),
            forall|j: int| 0 <= j < i ==> arg_problem(#[trigger] args@[j]@) is None,
            forall|j: int| 0 <= j < i ==> !names_local_command(#[trigger] args@[j]@),
        decreases args@.len() - i,
    {
        match check_arg(args[i].as_str()) {
            Some(m) => {
                return Err(m);
            },
            None => {},
        }
        i = i + 1;
    }
    Ok(())
}

/// An argument without a problem passes the screen.
pub proof fn lemma_no_problem_is_safe(a: Seq<char>)
    requires
        arg_problem(a) is None,
    ensures
        arg_safe(a),
{
}

} // verus!
