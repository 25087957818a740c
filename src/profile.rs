//! Connection profiles and the reverse tunnels they declare.

use vstd::prelude::*;

use crate::ids::new_uuid;
use crate::text::{append_str, decimal, decimal_string, owned};

verus! {

/// The address used when a tunnel does not name one.
pub open spec fn default_host() -> Seq<char> {
    "localhost"@
}

/// Default SSH port.
pub const DEFAULT_SSH_PORT: u16 = 22;

/// Default keep-alive interval, in seconds.
pub const DEFAULT_KEEPALIVE_INTERVAL: u32 = 20;

/// Default number of missed keep-alives before the client gives up.
pub const DEFAULT_KEEPALIVE_COUNT: u32 = 3;

/// A reverse port forward: a port on the remote server that is forwarded
/// back to a local listener.
#[derive(Debug, Clone, PartialEq, Eq)]
pub struct TunnelSpec {
    /// Address the remote side binds.
    pub remote_bind: String,
    /// Port opened on the SSH server.
    pub remote_port: u16,
    /// Local host the connection is forwarded to.
    pub local_host: String,
    /// Local port the connection is forwarded to.
    pub local_port: u16,
}

/// The canonical `remote-bind:remote-port:local-host:local-port` form.
pub open spec fn tunnel_text(rb: Seq<char>, rp: nat, lh: Seq<char>, lp: nat) -> Seq<char> {
    rb + ":"@ + decimal(rp) + ":"@ + lh + ":"@ + decimal(lp)
}

impl TunnelSpec {
    /// The canonical form of this tunnel.
    pub open spec fn canonical(&self) -> Seq<char> {
        tunnel_text(self.remote_bind@, self.remote_port as nat, self.local_host@, self.local_port as nat)
    }

    /// A tunnel between `localhost` ports.
    pub fn new(remote_port: u16, local_port: u16) -> (r: TunnelSpec)
        ensures
            r.remote_bind@ == default_host(),
            r.local_host@ == default_host(),
            r.remote_port == remote_port,
            r.local_port == local_port,
    {
        TunnelSpec {
            remote_bind: default_bind_address(),
            remote_port,
            local_host: default_bind_address(),
            local_port,
        }
    }

    /// The argument of `-R` for this tunnel.
    pub fn to_ssh_arg(&self) -> (r: String)
        ensures
            r@ == self.canonical(),
    {
        let mut s = self.remote_bind.clone();
        append_str(&mut s, ":");
        let rp = decimal_string(self.remote_port as u64);
        append_str(&mut s, rp.as_str());
        append_str(&mut s, ":");
        append_str(&mut s, self.local_host.as_str());
        append_str(&mut s, ":");
        let lp = decimal_string(self.local_port as u64);
        append_str(&mut s, lp.as_str());
        s
    }

    /// An independent copy of this tunnel.
    pub fn duplicate(&self) -> (r: TunnelSpec)
        ensures
            r == *self,
    {
        TunnelSpec {
            remote_bind: self.remote_bind.clone(),
            remote_port: self.remote_port,
            local_host: self.local_host.clone(),
            local_port: self.local_port,
        }
    }
}

/// `"localhost"`, the default address of both tunnel ends.
pub fn default_bind_address() -> (r: String)
    ensures
        r@ == default_host(),
{
    owned("localhost")
}

/// How the SSH client authenticates.
#[derive(Debug, Clone, PartialEq, Eq)]
pub enum AuthMethod {
    /// Keys offered by the SSH agent.
    Agent,
    /// A specific private key file; only its path is stored.
    KeyFile { path: String },
    /// A password handed to an external helper at start time.
    Password,
}

impl AuthMethod {
    /// The agent, which is the default.
    pub fn default_method() -> (r: AuthMethod)
        ensures
            r is Agent,
    {
        AuthMethod::Agent
    }

    /// An independent copy.
    pub fn duplicate(&self) -> (r: AuthMethod)
        ensures
            r == *self,
    {
        match self {
            AuthMethod::Agent => AuthMethod::Agent,
            AuthMethod::KeyFile { path } => AuthMethod::KeyFile { path: path.clone() },
            AuthMethod::Password => AuthMethod::Password,
        }
    }
}

/// A user-authored declaration of how to reach a server and which reverse
/// tunnels to keep open.
#[derive(Debug, Clone)]
pub struct Profile {
    /// Stable identifier (the value of a UUID).
    pub id: u128,
    /// Name, unique within the profile store.
    pub name: String,
    /// SSH server host name or address.
    pub host: String,
    /// SSH server port.
    pub port: u16,
    /// SSH user name.
    pub user: String,
    /// Authentication method.
    pub auth: AuthMethod,
    /// Tunnels, in order.
    pub tunnels: Vec<TunnelSpec>,
    /// Keep-alive interval in seconds.
    pub keepalive_interval: u32,
    /// Missed keep-alives tolerated.
    pub keepalive_count: u32,
    /// Whether a failed session is restarted.
    pub auto_reconnect: bool,
    /// Retry budget; 0 means unlimited.
    pub max_reconnect_attempts: u32,
    /// Further `-o key=value` options, in order, keys distinct.
    pub extra_options: Vec<(String, String)>,
    /// SSH binary to use instead of the detected one.
    pub ssh_path: Option<String>,
    /// Known-hosts file to use.
    pub known_hosts_file: Option<String>,
    /// Identity file to offer in addition.
    pub identity_file: Option<String>,
}

/// `user@host`.
pub open spec fn destination_text(user: Seq<char>, host: Seq<char>) -> Seq<char> {
    user + "@"@ + host
}

impl Profile {
    /// The invariants of a stored profile: a name, a port, a keep-alive
    /// interval and distinct option keys.
    pub open spec fn valid(&self) -> bool {
        &&& self.name@.len() > 0
        &&& self.port > 0
        &&& self.keepalive_interval > 0
        &&& forall|i: int, j: int|
            0 <= i < j < self.extra_options@.len() ==> self.extra_options@[i].0@
                != self.extra_options@[j].0@
    }

    /// A profile with every optional field at its default and no tunnels.
    pub fn new(name: &str, host: &str, user: &str) -> (r: Profile)
        ensures
            r.name@ == name@,
            r.host@ == host@,
            r.user@ == user@,
            r.port == DEFAULT_SSH_PORT,
            r.auth is Agent,
            r.tunnels@.len() == 0,
            r.keepalive_interval == DEFAULT_KEEPALIVE_INTERVAL,
            r.keepalive_count == DEFAULT_KEEPALIVE_COUNT,
            r.auto_reconnect,
            r.max_reconnect_attempts == 0,
            r.extra_options@.len() == 0,
            r.ssh_path is None,
            r.known_hosts_file is None,
            r.identity_file is None,
    {
        Profile {
            id: new_uuid(),
            name: owned(name),
            host: owned(host),
            port: DEFAULT_SSH_PORT,
            user: owned(user),
            auth: AuthMethod::default_method(),
            tunnels: Vec::new(),
            keepalive_interval: DEFAULT_KEEPALIVE_INTERVAL,
            keepalive_count: DEFAULT_KEEPALIVE_COUNT,
            auto_reconnect: true,
            max_reconnect_attempts: 0,
            extra_options: Vec::new(),
            ssh_path: None,
            known_hosts_file: None,
            identity_file: None,
        }
    }

    /// This profile with `tunnel` added last.
    pub fn with_tunnel(self, tunnel: TunnelSpec) -> (r: Profile)
        ensures
            r.tunnels@ == self.tunnels@.push(tunnel),
            r.id == self.id,
            r.name == self.name,
            r.host == self.host,
            r.port == self.port,
            r.user == self.user,
            r.auth == self.auth,
            r.keepalive_interval == self.keepalive_interval,
            r.keepalive_count == self.keepalive_count,
            r.auto_reconnect == self.auto_reconnect,
            r.max_reconnect_attempts == self.max_reconnect_attempts,
            r.extra_options == self.extra_options,
            r.ssh_path == self.ssh_path,
            r.known_hosts_file == self.known_hosts_file,
            r.identity_file == self.identity_file,
    {
        let mut p = self;
        p.tunnels.push(tunnel);
        p
    }

    /// The SSH destination `user@host`.
    pub fn destination(&self) -> (r: String)
        ensures
            r@ == destination_text(self.user@, self.host@),
    {
        let mut s = self.user.clone();
        append_str(&mut s, "@");
        append_str(&mut s, self.host.as_str());
        s
    }
}

} // verus!
