//! Lifecycle events published to observers. Timestamps are milliseconds
//! since the Unix epoch.

use vstd::prelude::*;

use crate::session::SessionStatus;
use crate::text::owned;

verus! {

/// Something that happened to a session, a profile or the SSH binary.
#[derive(Debug, Clone)]
pub enum Event {
    /// A session moved from one status to another.
    SessionStatusChanged {
        session_id: u128,
        profile_name: String,
        old_status: SessionStatus,
        new_status: SessionStatus,
        timestamp: i64,
    },
    /// A session's tunnel came up.
    SessionConnected { session_id: u128, profile_name: String, timestamp: i64 },
    /// A session's process ended with an error.
    SessionDisconnected {
        session_id: u128,
        profile_name: String,
        reason: Option<String>,
        timestamp: i64,
    },
    /// A session waits before its next attempt.
    SessionReconnecting {
        session_id: u128,
        profile_name: String,
        attempt: u32,
        max_attempts: u32,
        timestamp: i64,
    },
    /// A session gave up.
    SessionFailed { session_id: u128, profile_name: String, error: String, timestamp: i64 },
    /// A line of the SSH client's output.
    SessionOutput {
        session_id: u128,
        profile_name: String,
        output: String,
        is_stderr: bool,
        timestamp: i64,
    },
    /// A profile was created.
    ProfileCreated { profile_id: u128, profile_name: String, timestamp: i64 },
    /// A profile was updated.
    ProfileUpdated { profile_id: u128, profile_name: String, timestamp: i64 },
    /// A profile was deleted.
    ProfileDeleted { profile_id: u128, profile_name: String, timestamp: i64 },
    /// The SSH binary was found or changed.
    SshBinaryChanged { path: String, version: Option<String>, timestamp: i64 },
    /// A generic error.
    Error { message: String, context: Option<String>, timestamp: i64 },
}

impl Event {
    /// The time the event carries.
    pub open spec fn time(&self) -> i64 {
        match *self {
            Event::SessionStatusChanged { timestamp, .. } => timestamp,
            Event::SessionConnected { timestamp, .. } => timestamp,
            Event::SessionDisconnected { timestamp, .. } => timestamp,
            Event::SessionReconnecting { timestamp, .. } => timestamp,
            Event::SessionFailed { timestamp, .. } => timestamp,
            Event::SessionOutput { timestamp, .. } => timestamp,
            Event::ProfileCreated { timestamp, .. } => timestamp,
            Event::ProfileUpdated { timestamp, .. } => timestamp,
            Event::ProfileDeleted { timestamp, .. } => timestamp,
            Event::SshBinaryChanged { timestamp, .. } => timestamp,
            Event::Error { timestamp, .. } => timestamp,
        }
    }

    /// A status change.
    pub fn session_status_changed(
        session_id: u128,
        profile_name: &str,
        old_status: SessionStatus,
        new_status: SessionStatus,
        timestamp: i64,
    ) -> (r: Event)
        ensures
            r matches Event::SessionStatusChanged { session_id: i, profile_name: n, old_status: o, new_status: s, timestamp: t }
                && i == session_id && n@ == profile_name@ && o == old_status && s == new_status && t == timestamp,
    {
        Event::SessionStatusChanged {
            session_id,
            profile_name: owned(profile_name),
            old_status,
            new_status,
            timestamp,
        }
    }

    /// A connection.
    pub fn session_connected(session_id: u128, profile_name: &str, timestamp: i64) -> (r: Event)
        ensures
            r matches Event::SessionConnected { session_id: i, profile_name: n, timestamp: t }
                && i == session_id && n@ == profile_name@ && t == timestamp,
    {
        Event::SessionConnected { session_id, profile_name: owned(profile_name), timestamp }
    }

    /// A disconnection, with its reason if known.
    pub fn session_disconnected(
        session_id: u128,
        profile_name: &str,
        reason: Option<String>,
        timestamp: i64,
    ) -> (r: Event)
        ensures
            r matches Event::SessionDisconnected { session_id: i, profile_name: n, reason: w, timestamp: t }
                && i == session_id && n@ == profile_name@ && w == reason && t == timestamp,
    {
        Event::SessionDisconnected { session_id, profile_name: owned(profile_name), reason, timestamp }
    }

    /// A reconnection attempt out of `max_attempts` (0: unlimited).
    pub fn session_reconnecting(
        session_id: u128,
        profile_name: &str,
        attempt: u32,
        max_attempts: u32,
        timestamp: i64,
    ) -> (r: Event)
        ensures
            r matches Event::SessionReconnecting { session_id: i, profile_name: n, attempt: a, max_attempts: m, timestamp: t }
                && i == session_id && n@ == profile_name@ && a == attempt && m == max_attempts && t == timestamp,
    {
        Event::SessionReconnecting {
            session_id,
            profile_name: owned(profile_name),
            attempt,
            max_attempts,
            timestamp,
        }
    }

    /// A final failure.
    pub fn session_failed(session_id: u128, profile_name: &str, error: &str, timestamp: i64) -> (r: Event)
        ensures
            r matches Event::SessionFailed { session_id: i, profile_name: n, error: e, timestamp: t }
                && i == session_id && n@ == profile_name@ && e@ == error@ && t == timestamp,
    {
        Event::SessionFailed { session_id, profile_name: owned(profile_name), error: owned(error), timestamp }
    }

    /// A line of output.
    pub fn session_output(
        session_id: u128,
        profile_name: &str,
        output: &str,
        is_stderr: bool,
        timestamp: i64,
    ) -> (r: Event)
        ensures
            r matches Event::SessionOutput { session_id: i, profile_name: n, output: o, is_stderr: e, timestamp: t }
                && i == session_id && n@ == profile_name@ && o@ == output@ && e == is_stderr && t == timestamp,
    {
        Event::SessionOutput {
            session_id,
            profile_name: owned(profile_name),
            output: owned(output),
            is_stderr,
            timestamp,
        }
    }

    /// A generic error.
    pub fn error(message: &str, context: Option<String>, timestamp: i64) -> (r: Event)
        ensures
            r matches Event::Error { message: m, context: c, timestamp: t }
                && m@ == message@ && c == context && t == timestamp,
    {
        Event::Error { message: owned(message), context, timestamp }
    }

    /// The time the event carries.
    pub fn timestamp(&self) -> (r: i64)
        ensures
            r == self.time(),
    {
        match self {
            Event::SessionStatusChanged { timestamp, .. } => *timestamp,
            Event::SessionConnected { timestamp, .. } => *timestamp,
            Event::SessionDisconnected { timestamp, .. } => *timestamp,
            Event::SessionReconnecting { timestamp, .. } => *timestamp,
            Event::SessionFailed { timestamp, .. } => *timestamp,
            Event::SessionOutput { timestamp, .. } => *timestamp,
            Event::ProfileCreated { timestamp, .. } => *timestamp,
            Event::ProfileUpdated { timestamp, .. } => *timestamp,
            Event::ProfileDeleted { timestamp, .. } => *timestamp,
            Event::SshBinaryChanged { timestamp, .. } => *timestamp,
            Event::Error { timestamp, .. } => *timestamp,
        }
    }
}

} // verus!
