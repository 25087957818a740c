//! Choosing the SSH client and reading its version.

use vstd::prelude::*;
use vstd::string::StrSliceExecFns;

use crate::error::CoreError;
use crate::known_hosts::{is_white_space, white_space};
use crate::text::{contains, contains_str, owned};

verus! {

/// The SSH client that was found.
#[derive(Debug, Clone)]
pub struct SshInfo {
    /// Its path.
    pub path: String,
    /// What `ssh -V` printed.
    pub version: Option<String>,
    /// Whether the version names OpenSSH.
    pub is_openssh: bool,
}

impl SshInfo {
    /// A client at `path` whose version is not known yet.
    pub fn new(path: &str) -> (r: SshInfo)
        ensures
            r.path@ == path@,
            r.version is None,
            !r.is_openssh,
    {
        SshInfo { path: owned(path), version: None, is_openssh: false }
    }

    /// Records the version; a version naming `OpenSSH` marks the client as
    /// OpenSSH.
    pub fn with_version(self, version: String) -> (r: SshInfo)
        ensures
            r.path == self.path,
            r.version == Some(version),
            r.is_openssh == contains(version@, "OpenSSH"@),
    {
        let is_openssh = contains_str(version.as_str(), "OpenSSH");
        SshInfo { path: self.path, version: Some(version), is_openssh }
    }
}

/// Where the client is usually installed on Unix systems.
pub open spec fn common_unix_paths() -> Seq<Seq<char>> {
    seq![
        "/usr/bin/ssh"@,
        "/usr/local/bin/ssh"@,
        "/bin/ssh"@,
        "/opt/homebrew/bin/ssh"@,
        "/usr/local/opt/openssh/bin/ssh"@,
        "/data/data/com.termux/files/usr/bin/ssh"@,
    ]
}

/// Where the client is usually installed on Unix systems, in the order
/// they are tried.
pub fn get_common_ssh_paths() -> (r: Vec<String>)
    ensures
        r@.len() == common_unix_paths().len(),
        forall|i: int| 0 <= i < r@.len() ==> #[trigger] r@[i]@ == common_unix_paths()[i],
{
    let mut r: Vec<String> = Vec::new();
    r.push(owned("/usr/bin/ssh"));
    r.push(owned("/usr/local/bin/ssh"));
    r.push(owned("/bin/ssh"));
    r.push(owned("/opt/homebrew/bin/ssh"));
    r.push(owned("/usr/local/opt/openssh/bin/ssh"));
    r.push(owned("/data/data/com.termux/files/usr/bin/ssh"));
    r
}

/// Where the client is usually installed on Windows, given the
/// `SystemRoot`, `ProgramFiles` and `ProgramData` directories when they are
/// set.
pub open spec fn common_windows_paths(
    system_root: Option<Seq<char>>,
    program_files: Option<Seq<char>>,
    program_data: Option<Seq<char>>,
) -> Seq<Seq<char>> {
    (match system_root {
        Some(r) => seq![r + "\\System32\\OpenSSH\\ssh.exe"@],
        None => seq![],
    }) + seq!["C:\\Windows\\System32\\OpenSSH\\ssh.exe"@] + (match program_files {
        Some(p) => seq![p + "\\Git\\usr\\bin\\ssh.exe"@],
        None => seq![],
    }) + seq!["C:\\Program Files\\Git\\usr\\bin\\ssh.exe"@] + (match program_data {
        Some(d) => seq![d + "\\chocolatey\\bin\\ssh.exe"@],
        None => seq![],
    })
}

fn push_below(out: &mut Vec<String>, base: &Option<String>, tail: &str)
    ensures
        final(out)@.len() == old(out)@.len() + if base is Some { 1int } else { 0int },
        forall|i: int| 0 <= i < old(out)@.len() ==> #[trigger] final(out)@[i] == old(out)@[i],
        base matches Some(b) ==> final(out)@[old(out)@.len() as int]@ == b@ + tail@,
{
    match base {
        Some(b) => {
            let mut p = b.clone();
            crate::text::append_str(&mut p, tail);
            out.push(p);
        },
        None => {},
    }
}

/// Where the client is usually installed on Windows, in the order they are
/// tried.
pub fn get_common_windows_ssh_paths(
    system_root: Option<String>,
    program_files: Option<String>,
    program_data: Option<String>,
) -> (r: Vec<String>)
    ensures
        r@.map_values(|s: String| s@) == common_windows_paths(
            match system_root {
                Some(x) => Some(x@),
                None => None,
            },
            match program_files {
                Some(x) => Some(x@),
                None => None,
            },
            match program_data {
                Some(x) => Some(x@),
                None => None,
            },
        ),
{
    let mut r: Vec<String> = Vec::new();
    push_below(&mut r, &system_root, "\\System32\\OpenSSH\\ssh.exe");
    r.push(owned("C:\\Windows\\System32\\OpenSSH\\ssh.exe"));
    push_below(&mut r, &program_files, "\\Git\\usr\\bin\\ssh.exe");
    r.push(owned("C:\\Program Files\\Git\\usr\\bin\\ssh.exe"));
    push_below(&mut r, &program_data, "\\chocolatey\\bin\\ssh.exe");
    assert(r@.map_values(|s: String| s@) =~= common_windows_paths(
        match system_root {
            Some(x) => Some(x@),
            None => None,
        },
        match program_files {
            Some(x) => Some(x@),
            None => None,
        },
        match program_data {
            Some(x) => Some(x@),
            None => None,
        },
    ));
    r
}

/// Picks the client: a configured path wins if it exists (else the
/// configured path is reported not executable), then the one on the search
/// path, then the first existing common path.
pub fn choose_ssh_path(
    configured: Option<String>,
    configured_exists: bool,
    on_search_path: Option<String>,
    first_existing_common: Option<String>,
) -> (r: Result<String, CoreError>)
    ensures
        configured matches Some(c) ==> (if configured_exists {
            r == Ok::<String, CoreError>(c)
        } else {
            r == Err::<String, CoreError>(CoreError::SshNotExecutable(c))
        }),
        configured is None && on_search_path is Some ==> r == Ok::<String, CoreError>(
            on_search_path->0,
        ),
        configured is None && on_search_path is None && first_existing_common is Some ==> r == Ok::<
            String,
            CoreError,
        >(first_existing_common->0),
        configured is None && on_search_path is None && first_existing_common is None ==> r == Err::<
            String,
            CoreError,
        >(CoreError::SshNotFound),
{
    match configured {
        Some(c) => if configured_exists {
            Ok(c)
        } else {
            Err(CoreError::SshNotExecutable(c))
        },
        None => match on_search_path {
            Some(p) => Ok(p),
            None => match first_existing_common {
                Some(p) => Ok(p),
                None => Err(CoreError::SshNotFound),
            },
        },
    }
}

/// `s` without white space at either end.
pub open spec fn trimmed(s: Seq<char>, lo: int, hi: int) -> bool {
    &&& 0 <= lo <= hi <= s.len()
    &&& forall|j: int| 0 <= j < lo ==> white_space(#[trigger] s[j])
    &&& forall|j: int| hi <= j < s.len() ==> white_space(#[trigger] s[j])
    &&& (lo < hi ==> !white_space(s[lo]) && !white_space(s[hi - 1]))
}

/// The bounds of `s` without surrounding white space.
pub fn trim_bounds(s: &str) -> (r: (usize, usize))
    ensures
        trimmed(s@, r.0 as int, r.1 as int),
{
    let n = s.unicode_len();
    let mut lo: usize = 0;
    while lo < n && is_white_space(s.get_char(lo))
        invariant
            n == s@.len(),
            lo <= n,
            forall|j: int| 0 <= j < lo ==> white_space(#[trigger] s@[j]),
        decreases n - lo,
    {
        lo = lo + 1;
    }
    let mut hi: usize = n;
    while hi > lo && is_white_space(s.get_char(hi - 1))
        invariant
            n == s@.len(),
            lo <= hi <= n,
            forall|j: int| hi <= j < n ==> white_space(#[trigger] s@[j]),
            forall|j: int| 0 <= j < lo ==> white_space(#[trigger] s@[j]),
            lo < n ==> !white_space(s@[lo as int]),
        decreases hi - lo,
    {
        hi = hi - 1;
    }
    (lo, hi)
}

/// The output that holds the version: the error output unless it is empty.
pub open spec fn version_source(stderr: Seq<char>, stdout: Seq<char>) -> Seq<char> {
    if stderr.len() > 0 { stderr } else { stdout }
}

/// `v` is `s` without surrounding white space.
pub open spec fn is_trim_of(s: Seq<char>, v: Seq<char>) -> bool {
    exists|lo: int, hi: int| #[trigger] trimmed(s, lo, hi) && v == s.subrange(lo, hi)
}

/// The version text of `ssh -V`, which writes to its error stream: the
/// trimmed error output, or the trimmed standard output when the error
/// output is empty. Empty output is an error.
pub fn version_from_output(stderr: &str, stdout: &str) -> (r: Result<String, CoreError>)
    ensures
        r matches Ok(v) ==> v@.len() > 0 && is_trim_of(version_source(stderr@, stdout@), v@),
        r is Err <==> (forall|j: int|
            0 <= j < version_source(stderr@, stdout@).len() ==> white_space(
                #[trigger] version_source(stderr@, stdout@)[j],
            )),
        r matches Err(e) ==> e matches CoreError::SshVersionDetection(m) && m@ == "Empty version output"@,
{
    let src = if stderr.unicode_len() > 0 {
        stderr
    } else {
        stdout
    };
    let (lo, hi) = trim_bounds(src);
    if lo == hi {
        assert forall|j: int| 0 <= j < src@.len() implies white_space(#[trigger] src@[j]) by {
            if j >= lo as int {
            }
        }
        return Err(CoreError::SshVersionDetection(owned("Empty version output")));
    }
    let v = owned(src.substring_char(lo, hi));
    assert(trimmed(src@, lo as int, hi as int));
    assert(src@ == version_source(stderr@, stdout@));
    assert(!white_space(version_source(stderr@, stdout@)[lo as int]));
    Ok(v)
}

/// Whether `ssh -V` looked like a working client: a successful exit, or
/// error output that mentions SSH.
pub fn version_check_passed(success: bool, stderr: &str) -> (r: bool)
    ensures
        r == (success || contains(stderr@, "SSH"@) || contains(stderr@, "ssh"@)),
{
    success || contains_str(stderr, "SSH") || contains_str(stderr, "ssh")
}

} // verus!
