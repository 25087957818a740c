//! The shapes in which front ends send and receive profiles and sessions,
//! and how they map onto the library's own types.

use vstd::prelude::*;

use crate::error::CoreError;
use crate::profile::{AuthMethod, Profile, TunnelSpec};
use crate::session::SessionStatus;
use crate::text::owned;

verus! {

/// A tunnel as front ends exchange it.
#[derive(Debug, Clone)]
pub struct ApiTunnelSpec {
    pub remote_bind: String,
    pub remote_port: u16,
    pub local_host: String,
    pub local_port: u16,
}

impl ApiTunnelSpec {
    /// The front-end shape of `t`.
    pub fn from_tunnel(t: TunnelSpec) -> (r: ApiTunnelSpec)
        ensures
            r.remote_bind == t.remote_bind,
            r.remote_port == t.remote_port,
            r.local_host == t.local_host,
            r.local_port == t.local_port,
    {
        ApiTunnelSpec {
            remote_bind: t.remote_bind,
            remote_port: t.remote_port,
            local_host: t.local_host,
            local_port: t.local_port,
        }
    }

    /// The tunnel this describes.
    pub fn to_tunnel(self) -> (r: TunnelSpec)
        ensures
            r.remote_bind == self.remote_bind,
            r.remote_port == self.remote_port,
            r.local_host == self.local_host,
            r.local_port == self.local_port,
    {
        TunnelSpec {
            remote_bind: self.remote_bind,
            remote_port: self.remote_port,
            local_host: self.local_host,
            local_port: self.local_port,
        }
    }
}

/// An authentication method as front ends exchange it.
#[derive(Debug, Clone)]
pub enum ApiAuthMethod {
    Agent,
    KeyFile { path: String },
    Password,
}

impl ApiAuthMethod {
    /// The front-end shape of `a`.
    pub fn from_auth(a: AuthMethod) -> (r: ApiAuthMethod)
        ensures
            a is Agent ==> r is Agent,
            a is Password ==> r is Password,
            a matches AuthMethod::KeyFile { path } ==> (r matches ApiAuthMethod::KeyFile { path: q } && q == path),
    {
        match a {
            AuthMethod::Agent => ApiAuthMethod::Agent,
            AuthMethod::KeyFile { path } => ApiAuthMethod::KeyFile { path },
            AuthMethod::Password => ApiAuthMethod::Password,
        }
    }

    /// The method this describes.
    pub fn to_auth(self) -> (r: AuthMethod)
        ensures
            self is Agent ==> r is Agent,
            self is Password ==> r is Password,
            self matches ApiAuthMethod::KeyFile { path } ==> (r matches AuthMethod::KeyFile { path: q } && q == path),
    {
        match self {
            ApiAuthMethod::Agent => AuthMethod::Agent,
            ApiAuthMethod::KeyFile { path } => AuthMethod::KeyFile { path },
            ApiAuthMethod::Password => AuthMethod::Password,
        }
    }
}

/// A session status as front ends exchange it.
#[derive(Debug, Clone, Copy, PartialEq, Eq, Structural)]
pub enum ApiSessionStatus {
    Starting,
    Connected,
    Reconnecting,
    Stopped,
    Failed,
}

impl ApiSessionStatus {
    /// The front-end shape of `s`.
    pub fn from_status(s: SessionStatus) -> (r: ApiSessionStatus)
        ensures
            s is Starting <==> r is Starting,
            s is Connected <==> r is Connected,
            s is Reconnecting <==> r is Reconnecting,
            s is Stopped <==> r is Stopped,
            s is Failed <==> r is Failed,
    {
        match s {
            SessionStatus::Starting => ApiSessionStatus::Starting,
            SessionStatus::Connected => ApiSessionStatus::Connected,
            SessionStatus::Reconnecting => ApiSessionStatus::Reconnecting,
            SessionStatus::Stopped => ApiSessionStatus::Stopped,
            SessionStatus::Failed => ApiSessionStatus::Failed,
        }
    }
}

/// The per-start inputs a front end sends.
#[derive(Debug, Clone)]
pub struct StartSessionRequest {
    pub password: Option<String>,
}

/// A new profile as a front end sends it.
#[derive(Debug, Clone)]
pub struct CreateProfileRequest {
    pub name: String,
    pub host: String,
    pub port: Option<u16>,
    pub user: String,
    pub auth: Option<ApiAuthMethod>,
    pub tunnels: Vec<ApiTunnelSpec>,
}

/// A partial change to a profile as a front end sends it; absent fields
/// stay as they are.
#[derive(Debug, Clone)]
pub struct UpdateProfileRequest {
    pub name: Option<String>,
    pub host: Option<String>,
    pub port: Option<u16>,
    pub user: Option<String>,
    pub auth: Option<ApiAuthMethod>,
    pub tunnels: Option<Vec<ApiTunnelSpec>>,
}

fn to_tunnels(ts: Vec<ApiTunnelSpec>) -> (r: Vec<TunnelSpec>)
    ensures
        r@.len() == ts@.len(),
        forall|i: int|
            0 <= i < r@.len() ==> (#[trigger] r@[i]).remote_bind == ts@[i].remote_bind
                && r@[i].remote_port == ts@[i].remote_port && r@[i].local_host == ts@[i].local_host
                && r@[i].local_port == ts@[i].local_port,
{
    let mut out: Vec<TunnelSpec> = Vec::new();
    let mut i: usize = 0;
    while i < ts.len()
        invariant
            i <= ts@.len(),
            out@.len() == i,
            forall|k: int|
                0 <= k < i ==> (#[trigger] out@[k]).remote_bind == ts@[k].remote_bind
                    && out@[k].remote_port == ts@[k].remote_port && out@[k].local_host
                    == ts@[k].local_host && out@[k].local_port == ts@[k].local_port,
        decreases ts@.len() - i,
    {
        let t = &ts[i];
        out.push(TunnelSpec {
            remote_bind: t.remote_bind.clone(),
            remote_port: t.remote_port,
            local_host: t.local_host.clone(),
            local_port: t.local_port,
        });
        i = i + 1;
    }
    out
}

impl CreateProfileRequest {
    /// The profile the request describes, with identifier `id`: port 22 and
    /// the agent unless given, every other setting at its default. A request
    /// without tunnels is refused.
    pub fn to_profile(self, id: u128) -> (r: Result<Profile, CoreError>)
        ensures
            self.tunnels@.len() == 0 ==> (r matches Err(CoreError::ProfileInvalid(m))
                && m@ == "At least one tunnel is required"@),
            self.tunnels@.len() > 0 ==> (r matches Ok(p) && p.id == id && p.name == self.name
                && p.host == self.host && p.user == self.user && p.port == match self.port {
                Some(x) => x,
                None => 22u16,
            } && p.tunnels@.len() == self.tunnels@.len() && (self.auth is None ==> p.auth is Agent)
                && p.keepalive_interval == 20 && p.keepalive_count == 3 && p.auto_reconnect
                && p.max_reconnect_attempts == 0 && p.extra_options@.len() == 0),
    {
        if self.tunnels.len() == 0 {
            return Err(CoreError::ProfileInvalid(owned("At least one tunnel is required")));
        }
        let auth = match self.auth {
            Some(a) => a.to_auth(),
            None => AuthMethod::Agent,
        };
        let port = match self.port {
            Some(x) => x,
            None => 22,
        };
        Ok(Profile {
            id,
            name: self.name,
            host: self.host,
            port,
            user: self.user,
            auth,
            tunnels: to_tunnels(self.tunnels),
            keepalive_interval: 20,
            keepalive_count: 3,
            auto_reconnect: true,
            max_reconnect_attempts: 0,
            extra_options: Vec::new(),
            ssh_path: None,
            known_hosts_file: None,
            identity_file: None,
        })
    }
}

impl UpdateProfileRequest {
    /// `existing` with the fields the request gives replaced. An empty
    /// tunnel list is refused.
    pub fn apply(self, existing: Profile) -> (r: Result<Profile, CoreError>)
        ensures
            (self.tunnels matches Some(ts) && ts@.len() == 0) ==> (r matches Err(CoreError::ProfileInvalid(m))
                && m@ == "At least one tunnel is required"@),
            !(self.tunnels matches Some(ts) && ts@.len() == 0) ==> (r matches Ok(p) && p.id == existing.id
                && p.name == match self.name {
                Some(n) => n,
                None => existing.name,
            } && p.host == match self.host {
                Some(h) => h,
                None => existing.host,
            } && p.port == match self.port {
                Some(x) => x,
                None => existing.port,
            } && p.user == match self.user {
                Some(u) => u,
                None => existing.user,
            } && (self.auth is None ==> p.auth == existing.auth) && (self.tunnels is None
                ==> p.tunnels == existing.tunnels) && p.keepalive_interval == existing.keepalive_interval
                && p.extra_options == existing.extra_options),
    {
        let mut p = existing;
        match self.tunnels {
            Some(ts) => {
                if ts.len() == 0 {
                    return Err(CoreError::ProfileInvalid(owned("At least one tunnel is required")));
                }
                p.tunnels = to_tunnels(ts);
            },
            None => {},
        }
        match self.name {
            Some(n) => {
                p.name = n;
            },
            None => {},
        }
        match self.host {
            Some(h) => {
                p.host = h;
            },
            None => {},
        }
        match self.port {
            Some(x) => {
                p.port = x;
            },
            None => {},
        }
        match self.user {
            Some(u) => {
                p.user = u;
            },
            None => {},
        }
        match self.auth {
            Some(a) => {
                p.auth = a.to_auth();
            },
            None => {},
        }
        Ok(p)
    }
}

} // verus!
