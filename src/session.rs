//! Sessions: the runtime supervision of one profile.

use vstd::prelude::*;

use crate::ids::{new_uuid, now_millis};
use crate::profile::Profile;
use crate::text::{append_str, decimal, decimal_string, owned, signed_decimal, signed_decimal_string};

verus! {

/// Where a session stands.
#[derive(Debug, Clone, Copy, PartialEq, Eq, Structural)]
pub enum SessionStatus {
    /// A process is being started or has not shown the connected marker yet.
    Starting,
    /// The tunnel is up.
    Connected,
    /// Waiting before the next attempt.
    Reconnecting,
    /// Stopped on request.
    Stopped,
    /// Gave up: retry budget spent or reconnection off.
    Failed,
}

impl SessionStatus {
    /// Starting, connected or reconnecting: not terminal.
    pub open spec fn running(self) -> bool {
        self is Starting || self is Connected || self is Reconnecting
    }

    /// The lower-case name of the status.
    pub open spec fn name(self) -> Seq<char> {
        match self {
            SessionStatus::Starting => "starting"@,
            SessionStatus::Connected => "connected"@,
            SessionStatus::Reconnecting => "reconnecting"@,
            SessionStatus::Stopped => "stopped"@,
            SessionStatus::Failed => "failed"@,
        }
    }

    /// Whether the status is not terminal.
    pub fn is_running(&self) -> (r: bool)
        ensures
            r == self.running(),
    {
        match self {
            SessionStatus::Starting | SessionStatus::Connected | SessionStatus::Reconnecting => true,
            _ => false,
        }
    }

    /// The lower-case name of the status, as shown to users.
    pub fn to_string(&self) -> (r: String)
        ensures
            r@ == self.name(),
    {
        match self {
            SessionStatus::Starting => owned("starting"),
            SessionStatus::Connected => owned("connected"),
            SessionStatus::Reconnecting => owned("reconnecting"),
            SessionStatus::Stopped => owned("stopped"),
            SessionStatus::Failed => owned("failed"),
        }
    }
}

/// The runtime record of a session.
#[derive(Debug)]
pub struct Session {
    /// Session identifier (the value of a UUID).
    pub id: u128,
    /// Identifier of the profile the session runs.
    pub profile_id: u128,
    /// Name of that profile, for display.
    pub profile_name: String,
    /// Current status.
    pub status: SessionStatus,
    /// Process id of the current SSH child.
    pub pid: Option<u32>,
    /// Creation time, milliseconds since the Unix epoch.
    pub started_at: i64,
    /// Time of the last connection, milliseconds since the Unix epoch.
    pub connected_at: Option<i64>,
    /// Number of reconnection attempts so far.
    pub reconnect_count: u32,
    /// Last error seen.
    pub last_error: Option<String>,
}

/// Seconds as `12s`, `3m 4s` or `2h 5m`.
pub open spec fn uptime_text(secs: int) -> Seq<char> {
    if secs < 60 {
        signed_decimal(secs) + "s"@
    } else if secs < 3600 {
        decimal((secs / 60) as nat) + "m "@ + decimal((secs % 60) as nat) + "s"@
    } else {
        decimal((secs / 3600) as nat) + "h "@ + decimal(((secs % 3600) / 60) as nat) + "m"@
    }
}

/// Formats a duration in seconds as `12s`, `3m 4s` or `2h 5m`.
pub fn format_uptime(secs: i64) -> (r: String)
    ensures
        r@ == uptime_text(secs as int),
{
    if secs < 60 {
        let mut s = signed_decimal_string(secs);
        append_str(&mut s, "s");
        s
    } else if secs < 3600 {
        let mut s = decimal_string((secs / 60) as u64);
        append_str(&mut s, "m ");
        let rest = decimal_string((secs % 60) as u64);
        append_str(&mut s, rest.as_str());
        append_str(&mut s, "s");
        s
    } else {
        let mut s = decimal_string((secs / 3600) as u64);
        append_str(&mut s, "h ");
        let rest = decimal_string(((secs % 3600) / 60) as u64);
        append_str(&mut s, rest.as_str());
        append_str(&mut s, "m");
        s
    }
}

/// Milliseconds as whole seconds, rounded toward zero.
pub open spec fn whole_seconds(ms: int) -> int {
    if ms >= 0 { ms / 1000 } else { -((-ms) / 1000) }
}

/// The time from `from` to `to`, limited to the range of `i64`.
pub open spec fn elapsed(from: i64, to: i64) -> i64 {
    let d = to as int - from as int;
    if d > i64::MAX { i64::MAX } else if d < i64::MIN { i64::MIN } else { d as i64 }
}

impl Session {
    /// A new session record for `profile`, starting, with the given
    /// identifier and creation time.
    pub fn create(id: u128, profile: &Profile, now: i64) -> (r: Session)
        ensures
            r.id == id,
            r.profile_id == profile.id,
            r.profile_name@ == profile.name@,
            r.status == SessionStatus::Starting,
            r.pid is None,
            r.started_at == now,
            r.connected_at is None,
            r.reconnect_count == 0,
            r.last_error is None,
    {
        Session {
            id,
            profile_id: profile.id,
            profile_name: profile.name.clone(),
            status: SessionStatus::Starting,
            pid: None,
            started_at: now,
            connected_at: None,
            reconnect_count: 0,
            last_error: None,
        }
    }

    /// A new session record for `profile` with a fresh identifier, created now.
    pub fn new(profile: &Profile) -> (r: Session)
        ensures
            r.profile_id == profile.id,
            r.profile_name@ == profile.name@,
            r.status == SessionStatus::Starting,
            r.pid is None,
            r.connected_at is None,
            r.reconnect_count == 0,
            r.last_error is None,
    {
        let id = new_uuid();
        let now = now_millis();
        Session::create(id, profile, now)
    }

    /// Whether the session is not in a terminal status.
    pub fn is_running(&self) -> (r: bool)
        ensures
            r == self.status.running(),
    {
        self.status.is_running()
    }

    /// Whether the session is connected.
    pub fn is_connected(&self) -> (r: bool)
        ensures
            r == (self.status == SessionStatus::Connected),
    {
        self.status == SessionStatus::Connected
    }

    /// Milliseconds since the last connection, at time `now`.
    pub fn uptime_at(&self, now: i64) -> (r: Option<i64>)
        ensures
            r == match self.connected_at {
                Some(t) => Some(elapsed(t, now)),
                None => None::<i64>,
            },
    {
        match self.connected_at {
            Some(t) => {
                let d: i128 = now as i128 - t as i128;
                if d > i64::MAX as i128 {
                    Some(i64::MAX)
                } else if d < i64::MIN as i128 {
                    Some(i64::MIN)
                } else {
                    Some(d as i64)
                }
            },
            None => None,
        }
    }

    /// Milliseconds since the last connection.
    pub fn uptime(&self) -> (r: Option<i64>)
        ensures
            r is Some <==> self.connected_at is Some,
    {
        let now = now_millis();
        self.uptime_at(now)
    }

    /// The uptime at time `now` as `12s`, `3m 4s` or `2h 5m`, or `-` when
    /// the session never connected.
    pub fn uptime_string_at(&self, now: i64) -> (r: String)
        ensures
            r@ == match self.connected_at {
                Some(t) => uptime_text(whole_seconds(elapsed(t, now) as int)),
                None => "-"@,
            },
    {
        match self.uptime_at(now) {
            Some(ms) => {
                let secs: i64 = if ms >= 0 {
                    ms / 1000
                } else {
                    (0i128 - ((0i128 - ms as i128) / 1000)) as i64
                };
                format_uptime(secs)
            },
            None => owned("-"),
        }
    }

    /// The uptime now as `12s`, `3m 4s` or `2h 5m`, or `-`.
    pub fn uptime_string(&self) -> (r: String)
        ensures
            self.connected_at is None ==> r@ == "-"@,
    {
        let now = now_millis();
        self.uptime_string_at(now)
    }

    /// An independent copy of this record.
    pub fn snapshot(&self) -> (r: Session)
        ensures
            r == *self,
    {
        Session {
            id: self.id,
            profile_id: self.profile_id,
            profile_name: self.profile_name.clone(),
            status: self.status,
            pid: self.pid,
            started_at: self.started_at,
            connected_at: self.connected_at,
            reconnect_count: self.reconnect_count,
            last_error: match &self.last_error {
                Some(e) => Some(e.clone()),
                None => None,
            },
        }
    }
}

} // verus!
