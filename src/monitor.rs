//! What one generation of the SSH child shows: the connected marker in its
//! output and how it ended.

use vstd::prelude::*;

use crate::text::{contains, contains_str};

verus! {

/// What the SSH child's output streams deliver.
#[derive(Debug, Clone, PartialEq, Eq)]
pub enum SshOutput {
    /// A line of standard output.
    Stdout(String),
    /// A line of error output.
    Stderr(String),
    /// The child ended, with its exit code if it had one.
    Exit(Option<i32>),
}

/// How one generation of the SSH child ended.
#[derive(Debug, Clone)]
pub enum MonitorResult {
    /// Exit code 0.
    ExitedNormally,
    /// A non-zero exit code, with the last line of output.
    ExitedWithError(i32, String),
    /// Ended by a signal, without an exit code.
    Killed,
    /// Cancelled from outside.
    Stopped,
}

/// A line of the client's diagnostic output that shows the tunnel is up.
pub open spec fn has_marker(line: Seq<char>) -> bool {
    contains(line, "Authenticated to"@) || contains(line, "pledge: "@) || contains(
        line,
        "debug1: Entering interactive session"@,
    ) || contains(line, "debug1: Remote connections from"@)
}

/// Whether `line` holds one of the connection-established markers.
pub fn is_connection_established(line: &str) -> (r: bool)
    ensures
        r == has_marker(line@),
{
    contains_str(line, "Authenticated to") || contains_str(line, "pledge: ") || contains_str(
        line,
        "debug1: Entering interactive session",
    ) || contains_str(line, "debug1: Remote connections from")
}

/// The result for an exit with `code` (none: killed by a signal), given the
/// last line of output.
pub fn classify_exit(code: Option<i32>, last_line: &str) -> (r: MonitorResult)
    ensures
        code == Some(0i32) ==> r is ExitedNormally,
        code is None ==> r is Killed,
        forall|c: i32|
            c != 0 && code == Some(c) ==> (r matches MonitorResult::ExitedWithError(k, m) && k == c
                && m@ == last_line@),
{
    match code {
        Some(0) => MonitorResult::ExitedNormally,
        Some(c) => MonitorResult::ExitedWithError(c, crate::text::owned(last_line)),
        None => MonitorResult::Killed,
    }
}

} // verus!
