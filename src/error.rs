//! The library's error taxonomy.

use vstd::prelude::*;

use crate::text::{append_str, owned, signed_decimal, signed_decimal_string};

verus! {

/// Everything that can go wrong, grouped by the part of the system that
/// reports it.
#[derive(Debug, Clone, PartialEq, Eq)]
pub enum CoreError {
    SshNotFound,
    SshNotExecutable(String),
    SshVersionDetection(String),
    SshSpawnFailed(String),
    SshExitError { code: i32, message: String },
    SshSignalTerminated,
    ConfigNotFound(String),
    ConfigParse(String),
    ConfigInvalid(String),
    ConfigWrite(String),
    ProfileNotFound(String),
    ProfileAlreadyExists(String),
    ProfileInvalid(String),
    SessionNotFound(String),
    SessionAlreadyRunning(String),
    SessionNotRunning(String),
    MaxReconnectAttemptsReached,
    StorageAccess(String),
    Serialization(String),
    Deserialization(String),
    Io(String),
    Cancelled,
    Other(String),
}

/// The human-readable text of an error.
pub open spec fn error_text(e: CoreError) -> Seq<char> {
    match e {
        CoreError::SshNotFound => "SSH binary not found. Please ensure OpenSSH is installed."@,
        CoreError::SshNotExecutable(p) => "SSH binary at '"@ + p@ + "' is not executable"@,
        CoreError::SshVersionDetection(m) => "Failed to detect SSH version: "@ + m@,
        CoreError::SshSpawnFailed(m) => "SSH process failed to start: "@ + m@,
        CoreError::SshExitError { code, message } => "SSH process exited with code "@
            + signed_decimal(code as int) + ": "@ + message@,
        CoreError::SshSignalTerminated => "SSH process terminated by signal"@,
        CoreError::ConfigNotFound(p) => "Configuration file not found: "@ + p@,
        CoreError::ConfigParse(m) => "Failed to parse configuration: "@ + m@,
        CoreError::ConfigInvalid(m) => "Invalid configuration: "@ + m@,
        CoreError::ConfigWrite(m) => "Failed to write configuration: "@ + m@,
        CoreError::ProfileNotFound(m) => "Profile not found: "@ + m@,
        CoreError::ProfileAlreadyExists(m) => "Profile already exists: "@ + m@,
        CoreError::ProfileInvalid(m) => "Invalid profile: "@ + m@,
        CoreError::SessionNotFound(m) => "Session not found: "@ + m@,
        CoreError::SessionAlreadyRunning(m) => "Session already running for profile: "@ + m@,
        CoreError::SessionNotRunning(m) => "Session not running: "@ + m@,
        CoreError::MaxReconnectAttemptsReached => "Maximum reconnection attempts reached"@,
        CoreError::StorageAccess(m) => "Failed to access storage: "@ + m@,
        CoreError::Serialization(m) => "Failed to serialize data: "@ + m@,
        CoreError::Deserialization(m) => "Failed to deserialize data: "@ + m@,
        CoreError::Io(m) => "IO error: "@ + m@,
        CoreError::Cancelled => "Operation cancelled"@,
        CoreError::Other(m) => m@,
    }
}

fn prefixed(prefix: &str, payload: &String) -> (r: String)
    ensures
        r@ == prefix@ + payload@,
{
    let mut s = owned(prefix);
    append_str(&mut s, payload.as_str());
    s
}

impl CoreError {
    /// An error that fits no other kind.
    pub fn other(message: &str) -> (r: CoreError)
        ensures
            r matches CoreError::Other(m) && m@ == message@,
    {
        CoreError::Other(owned(message))
    }

    /// The human-readable text of this error.
    pub fn message(&self) -> (r: String)
        ensures
            r@ == error_text(*self),
    {
        match self {
            CoreError::SshNotFound => owned("SSH binary not found. Please ensure OpenSSH is installed."),
            CoreError::SshNotExecutable(p) => {
                let mut s = prefixed("SSH binary at '", p);
                append_str(&mut s, "' is not executable");
                s
            },
            CoreError::SshVersionDetection(m) => prefixed("Failed to detect SSH version: ", m),
            CoreError::SshSpawnFailed(m) => prefixed("SSH process failed to start: ", m),
            CoreError::SshExitError { code, message } => {
                let mut s = owned("SSH process exited with code ");
                let c = signed_decimal_string(*code as i64);
                append_str(&mut s, c.as_str());
                append_str(&mut s, ": ");
                append_str(&mut s, message.as_str());
                s
            },
            CoreError::SshSignalTerminated => owned("SSH process terminated by signal"),
            CoreError::ConfigNotFound(p) => prefixed("Configuration file not found: ", p),
            CoreError::ConfigParse(m) => prefixed("Failed to parse configuration: ", m),
            CoreError::ConfigInvalid(m) => prefixed("Invalid configuration: ", m),
            CoreError::ConfigWrite(m) => prefixed("Failed to write configuration: ", m),
            CoreError::ProfileNotFound(m) => prefixed("Profile not found: ", m),
            CoreError::ProfileAlreadyExists(m) => prefixed("Profile already exists: ", m),
            CoreError::ProfileInvalid(m) => prefixed("Invalid profile: ", m),
            CoreError::SessionNotFound(m) => prefixed("Session not found: ", m),
            CoreError::SessionAlreadyRunning(m) => prefixed("Session already running for profile: ", m),
            CoreError::SessionNotRunning(m) => prefixed("Session not running: ", m),
            CoreError::MaxReconnectAttemptsReached => owned("Maximum reconnection attempts reached"),
            CoreError::StorageAccess(m) => prefixed("Failed to access storage: ", m),
            CoreError::Serialization(m) => prefixed("Failed to serialize data: ", m),
            CoreError::Deserialization(m) => prefixed("Failed to deserialize data: ", m),
            CoreError::Io(m) => prefixed("IO error: ", m),
            CoreError::Cancelled => owned("Operation cancelled"),
            CoreError::Other(m) => m.clone(),
        }
    }
}

} // verus!
