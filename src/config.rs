//! Application-wide settings and their defaults.

use vstd::prelude::*;

use crate::text::owned;

verus! {

/// How the SSH client treats unknown and changed host keys.
#[derive(Debug, Clone, Copy, PartialEq, Eq)]
pub enum StrictHostKeyChecking {
    /// Always verify host keys.
    Yes,
    /// Accept new keys, reject changed ones.
    AcceptNew,
    /// Never verify host keys.
    No,
}

/// The value of the `StrictHostKeyChecking` option for each mode.
pub open spec fn host_key_option_text(m: StrictHostKeyChecking) -> Seq<char> {
    match m {
        StrictHostKeyChecking::Yes => "yes"@,
        StrictHostKeyChecking::AcceptNew => "accept-new"@,
        StrictHostKeyChecking::No => "no"@,
    }
}

impl StrictHostKeyChecking {
    /// The mode used when none is configured.
    pub fn default_mode() -> (r: StrictHostKeyChecking)
        ensures
            r == StrictHostKeyChecking::AcceptNew,
    {
        StrictHostKeyChecking::AcceptNew
    }

    /// The option value that the SSH client understands.
    pub fn to_ssh_option(&self) -> (r: &'static str)
        ensures
            r@ == host_key_option_text(*self),
    {
        match self {
            StrictHostKeyChecking::Yes => "yes",
            StrictHostKeyChecking::AcceptNew => "accept-new",
            StrictHostKeyChecking::No => "no",
        }
    }

    /// The option value as an owned string.
    pub fn to_ssh_option_string(&self) -> (r: String)
        ensures
            r@ == host_key_option_text(*self),
    {
        owned(self.to_ssh_option())
    }
}

/// General application settings.
#[derive(Debug, Clone)]
pub struct GeneralConfig {
    /// Start the desktop window minimized.
    pub start_minimized: bool,
    /// Start sessions when the application launches.
    pub auto_start_sessions: bool,
    /// Profile to start by default, by name or identifier.
    pub default_profile: Option<String>,
}

impl Default for GeneralConfig {
    fn default() -> (r: GeneralConfig)
        ensures
            !r.start_minimized,
            !r.auto_start_sessions,
            r.default_profile is None,
    {
        GeneralConfig { start_minimized: false, auto_start_sessions: false, default_profile: None }
    }
}

/// SSH settings shared by all profiles.
#[derive(Debug, Clone)]
pub struct SshConfig {
    /// SSH binary to use instead of looking for one.
    pub binary_path: Option<String>,
    /// Default keep-alive interval in seconds.
    pub default_keepalive_interval: u32,
    /// Default number of missed keep-alives.
    pub default_keepalive_count: u32,
    /// Options applied to every connection, in order.
    pub default_options: Vec<(String, String)>,
    /// Host key checking mode.
    pub strict_host_key_checking: StrictHostKeyChecking,
    /// Use the application's own known-hosts file.
    pub use_app_known_hosts: bool,
}

/// Default keep-alive interval, in seconds.
pub fn default_keepalive_interval() -> (r: u32)
    ensures
        r == 20,
{
    20
}

/// Default number of missed keep-alives.
pub fn default_keepalive_count() -> (r: u32)
    ensures
        r == 3,
{
    3
}

/// `true`, the default of the switches that are on unless turned off.
pub fn default_true() -> (r: bool)
    ensures
        r,
{
    true
}

impl Default for SshConfig {
    fn default() -> (r: SshConfig)
        ensures
            r.binary_path is None,
            r.default_keepalive_interval == 20,
            r.default_keepalive_count == 3,
            r.default_options@.len() == 0,
            r.strict_host_key_checking == StrictHostKeyChecking::AcceptNew,
            r.use_app_known_hosts,
    {
        SshConfig {
            binary_path: None,
            default_keepalive_interval: default_keepalive_interval(),
            default_keepalive_count: default_keepalive_count(),
            default_options: Vec::new(),
            strict_host_key_checking: StrictHostKeyChecking::default_mode(),
            use_app_known_hosts: default_true(),
        }
    }
}

/// Logging settings.
#[derive(Debug, Clone)]
pub struct LoggingConfig {
    /// Level: trace, debug, info, warn or error.
    pub level: String,
    /// Write logs to files.
    pub file_logging: bool,
    /// Size in megabytes at which a log file is rotated.
    pub max_file_size_mb: u32,
    /// Rotated files kept.
    pub max_files: u32,
}

/// `info`.
pub fn default_log_level() -> (r: String)
    ensures
        r@ == "info"@,
{
    owned("info")
}

/// Ten megabytes.
pub fn default_max_log_size() -> (r: u32)
    ensures
        r == 10,
{
    10
}

/// Five files.
pub fn default_max_log_files() -> (r: u32)
    ensures
        r == 5,
{
    5
}

impl Default for LoggingConfig {
    fn default() -> (r: LoggingConfig)
        ensures
            r.level@ == "info"@,
            r.file_logging,
            r.max_file_size_mb == 10,
            r.max_files == 5,
    {
        LoggingConfig {
            level: default_log_level(),
            file_logging: default_true(),
            max_file_size_mb: default_max_log_size(),
            max_files: default_max_log_files(),
        }
    }
}

/// Web server settings.
#[derive(Debug, Clone)]
pub struct WebConfig {
    /// Serve the web interface.
    pub enabled: bool,
    /// Address to bind.
    pub bind_address: String,
    /// Port to listen on.
    pub port: u16,
    /// Allow cross-origin requests.
    pub cors_enabled: bool,
}

/// The loopback address.
pub fn default_bind_address() -> (r: String)
    ensures
        r@ == "127.0.0.1"@,
{
    owned("127.0.0.1")
}

/// The web interface's port.
pub fn default_web_port() -> (r: u16)
    ensures
        r == 3847,
{
    3847
}

impl Default for WebConfig {
    fn default() -> (r: WebConfig)
        ensures
            !r.enabled,
            r.bind_address@ == "127.0.0.1"@,
            r.port == 3847,
            !r.cors_enabled,
    {
        WebConfig {
            enabled: false,
            bind_address: default_bind_address(),
            port: default_web_port(),
            cors_enabled: false,
        }
    }
}

/// The whole application configuration.
#[derive(Debug, Clone)]
pub struct AppConfig {
    pub general: GeneralConfig,
    pub ssh: SshConfig,
    pub logging: LoggingConfig,
    pub web: WebConfig,
}

impl Default for AppConfig {
    fn default() -> (r: AppConfig)
        ensures
            !r.general.start_minimized,
            !r.general.auto_start_sessions,
            r.general.default_profile is None,
            r.ssh.binary_path is None,
            r.ssh.default_keepalive_interval == 20,
            r.ssh.default_keepalive_count == 3,
            r.ssh.default_options@.len() == 0,
            r.ssh.strict_host_key_checking == StrictHostKeyChecking::AcceptNew,
            r.ssh.use_app_known_hosts,
            r.logging.level@ == "info"@,
            r.logging.file_logging,
            r.logging.max_file_size_mb == 10,
            r.logging.max_files == 5,
            !r.web.enabled,
            r.web.bind_address@ == "127.0.0.1"@,
            r.web.port == 3847,
            !r.web.cors_enabled,
    {
        AppConfig {
            general: GeneralConfig::default(),
            ssh: SshConfig::default(),
            logging: LoggingConfig::default(),
            web: WebConfig::default(),
        }
    }
}

} // verus!
