//! Rules of the profile store: one `<sanitized name>.toml` file per profile,
//! names unique, renames that remove the old file only after the new one is
//! saved.

use vstd::prelude::*;
use vstd::string::StrSliceExecFns;

use crate::error::CoreError;
use crate::profile::Profile;
use crate::text::{append_str, owned, push_char, same_text};

verus! {

/// A character kept in file names: an ASCII letter or digit, `-` or `_`.
pub open spec fn file_name_char(c: char) -> bool {
    ('a' <= c && c <= 'z') || ('A' <= c && c <= 'Z') || ('0' <= c && c <= '9') || c == '-' || c
        == '_'
}

/// The name with every other character replaced by `_`.
pub open spec fn sanitized(name: Seq<char>) -> Seq<char> {
    Seq::new(name.len(), |i: int| if file_name_char(name[i]) { name[i] } else { '_' })
}

/// Makes a profile name safe as a file name: every character that is not
/// an ASCII letter or digit, `-` or `_` becomes `_`.
pub fn sanitize_filename(name: &str) -> (r: String)
    ensures
        r@ == sanitized(name@),
{
    let n = name.unicode_len();
    let mut s = String::new();
    let mut i: usize = 0;
    while i < n
        invariant
            n == name@.len(),
            i <= n,
            s@ == sanitized(name@.subrange(0, i as int)),
        decreases n - i,
    {
        let c = name.get_char(i);
        let keep = ('a' <= c && c <= 'z') || ('A' <= c && c <= 'Z') || ('0' <= c && c <= '9') || c
            == '-' || c == '_';
        push_char(&mut s, if keep { c } else { '_' });
        i = i + 1;
        assert(s@ =~= sanitized(name@.subrange(0, i as int)));
    }
    assert(name@.subrange(0, n as int) =~= name@);
    s
}

/// The file a profile is stored in.
pub fn profile_file_name(name: &str) -> (r: String)
    ensures
        r@ == sanitized(name@) + ".toml"@,
{
    let mut s = sanitize_filename(name);
    append_str(&mut s, ".toml");
    s
}

/// A file name with the extension `toml` (a bare `.toml` is a hidden file
/// without extension).
pub open spec fn is_profile_file(file_name: Seq<char>) -> bool {
    file_name.len() > 5 && file_name.subrange(file_name.len() - 5, file_name.len() as int)
        == ".toml"@
}

/// Whether a directory entry holds a profile.
pub fn is_profile_file_name(file_name: &str) -> (r: bool)
    ensures
        r == is_profile_file(file_name@),
{
    let n = file_name.unicode_len();
    if n <= 5 {
        return false;
    }
    same_text(file_name.substring_char(n - 5, n), ".toml")
}

/// Some profile of `ps` has the name `name`.
pub open spec fn has_name(ps: Seq<Profile>, name: Seq<char>) -> bool {
    exists|i: int| 0 <= i < ps.len() && #[trigger] ps[i].name@ == name
}

/// The position of the first profile called `name`.
pub fn find_by_name(profiles: &Vec<Profile>, name: &str) -> (r: Option<usize>)
    ensures
        match r {
            Some(i) => i < profiles@.len() && profiles@[i as int].name@ == name@ && forall|j: int|
                0 <= j < i ==> #[trigger] profiles@[j].name@ != name@,
            None => !has_name(profiles@, name@),
        },
{
    let mut i: usize = 0;
    while i < profiles.len()
        invariant
            i <= profiles@.len(),
            forall|j: int| 0 <= j < i ==> #[trigger] profiles@[j].name@ != name@,
        decreases profiles@.len() - i,
    {
        if same_text(profiles[i].name.as_str(), name) {
            return Some(i);
        }
        i = i + 1;
    }
    None
}

/// A profile that can be added to `existing`: a new, non-empty name, at
/// least one tunnel, a port and a keep-alive interval.
pub open spec fn creatable(existing: Seq<Profile>, p: Profile) -> bool {
    &&& p.valid()
    &&& !has_name(existing, p.name@)
    &&& p.tunnels@.len() > 0
}

/// Whether two extra options share a key.
pub fn has_duplicate_keys(options: &Vec<(String, String)>) -> (r: bool)
    ensures
        r == exists|i: int, j: int|
            0 <= i < j < options@.len() && #[trigger] options@[i].0@ == #[trigger] options@[j].0@,
{
    let mut j: usize = 0;
    while j < options.len()
        invariant
            j <= options@.len(),
            forall|a: int, b: int| 0 <= a < b < j ==> options@[a].0@ != options@[b].0@,
        decreases options@.len() - j,
    {
        let mut i: usize = 0;
        while i < j
            invariant
                i <= j < options@.len(),
                forall|a: int| 0 <= a < i ==> options@[a].0@ != options@[j as int].0@,
            decreases j - i,
        {
            if same_text(options[i].0.as_str(), options[j].0.as_str()) {
                return true;
            }
            i = i + 1;
        }
        j = j + 1;
    }
    false
}

/// Checks a profile before it is created. A taken name gives
/// `ProfileAlreadyExists` with the name; an empty name, no tunnels, port 0,
/// a zero keep-alive interval or two extra options with one key give
/// `ProfileInvalid`.
pub fn check_new_profile(existing: &Vec<Profile>, profile: &Profile) -> (r: Result<(), CoreError>)
    ensures
        profile.name@.len() == 0 ==> r is Err && r->Err_0 is ProfileInvalid,
        profile.name@.len() > 0 && has_name(existing@, profile.name@) ==> (r matches Err(
            CoreError::ProfileAlreadyExists(n),
        ) && n@ == profile.name@),
        profile.name@.len() > 0 && !has_name(existing@, profile.name@) && (profile.tunnels@.len() == 0
            || !profile.valid()) ==> r is Err && r->Err_0 is ProfileInvalid,
        r is Ok <==> creatable(existing@, *profile),
{
    if profile.name.as_str().unicode_len() == 0 {
        return Err(CoreError::ProfileInvalid(owned("name must not be empty")));
    }
    if find_by_name(existing, profile.name.as_str()).is_some() {
        return Err(CoreError::ProfileAlreadyExists(profile.name.clone()));
    }
    if profile.tunnels.len() == 0 {
        return Err(CoreError::ProfileInvalid(owned("at least one tunnel is required")));
    }
    if profile.port == 0 {
        return Err(CoreError::ProfileInvalid(owned("port must be greater than zero")));
    }
    if profile.keepalive_interval == 0 {
        return Err(CoreError::ProfileInvalid(owned("keep-alive interval must be greater than zero")));
    }
    if has_duplicate_keys(&profile.extra_options) {
        return Err(CoreError::ProfileInvalid(owned("extra option keys must be distinct")));
    }
    Ok(())
}

/// Plans the update of the profile now called `existing_name` to a
/// profile called `new_name`. Fails with `ProfileNotFound` when no profile
/// has the old name, and with `ProfileAlreadyExists` when the name changes
/// to one that another profile has. Otherwise the new profile is saved, and
/// on a rename the returned file, the old one, is removed after that save.
pub fn plan_update(existing: &Vec<Profile>, existing_name: &str, new_name: &str) -> (r: Result<
    Option<String>,
    CoreError,
>)
    ensures
        !has_name(existing@, existing_name@) ==> (r matches Err(CoreError::ProfileNotFound(n))
            && n@ == existing_name@),
        has_name(existing@, existing_name@) && new_name@ != existing_name@ && has_name(
            existing@,
            new_name@,
        ) ==> (r matches Err(CoreError::ProfileAlreadyExists(n)) && n@ == new_name@),
        has_name(existing@, existing_name@) && new_name@ == existing_name@ ==> r == Ok::<
            Option<String>,
            CoreError,
        >(None),
        has_name(existing@, existing_name@) && new_name@ != existing_name@ && !has_name(
            existing@,
            new_name@,
        ) ==> (r matches Ok(Some(f)) && f@ == sanitized(existing_name@) + ".toml"@),
{
    if find_by_name(existing, existing_name).is_none() {
        return Err(CoreError::ProfileNotFound(owned(existing_name)));
    }
    if same_text(new_name, existing_name) {
        return Ok(None);
    }
    if find_by_name(existing, new_name).is_some() {
        return Err(CoreError::ProfileAlreadyExists(owned(new_name)));
    }
    Ok(Some(profile_file_name(existing_name)))
}

} // verus!
