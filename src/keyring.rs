//! Optional store for metadata that belongs in the system keyring. No
//! keyring backend is wired in: the store reports itself unavailable.

use vstd::prelude::*;

use crate::error::CoreError;
use crate::text::{append_str, owned};

verus! {

/// What may be kept in the keyring. Private keys never are.
#[derive(Debug, Clone, Copy, PartialEq, Eq, Structural)]
pub enum KeyringEntry {
    /// The path of a profile's key file.
    SshKeyPath,
    /// A server's host key fingerprint.
    ServerFingerprint,
}

/// The keyring key of an entry for a profile.
pub open spec fn keyring_key(e: KeyringEntry, profile_name: Seq<char>) -> Seq<char> {
    match e {
        KeyringEntry::SshKeyPath => "ssh-key-path:"@ + profile_name,
        KeyringEntry::ServerFingerprint => "server-fingerprint:"@ + profile_name,
    }
}

impl KeyringEntry {
    /// The keyring key of this entry for `profile_name`.
    pub fn to_key(&self, profile_name: &str) -> (r: String)
        ensures
            r@ == keyring_key(*self, profile_name@),
    {
        let mut s = match self {
            KeyringEntry::SshKeyPath => owned("ssh-key-path:"),
            KeyringEntry::ServerFingerprint => owned("server-fingerprint:"),
        };
        append_str(&mut s, profile_name);
        s
    }
}

/// Access to the keyring.
pub struct KeyringManager {
    available: bool,
}

impl KeyringManager {
    /// Whether a keyring can be used.
    pub closed spec fn usable(&self) -> bool {
        self.available
    }

    /// A manager; without a backend the keyring is unavailable.
    pub fn new() -> (r: KeyringManager)
        ensures
            !r.usable(),
    {
        KeyringManager { available: false }
    }

    /// Whether a keyring can be used.
    pub fn is_available(&self) -> (r: bool)
        ensures
            r == self.usable(),
    {
        self.available
    }

    /// Stores a value; fails when no keyring is available.
    pub fn set(&self, entry: KeyringEntry, profile_name: &str, value: &str) -> (r: Result<(), CoreError>)
        ensures
            !self.usable() ==> (r matches Err(CoreError::StorageAccess(m)) && m@ == "Keyring not available"@),
            self.usable() ==> r is Ok,
    {
        if !self.available {
            return Err(CoreError::StorageAccess(owned("Keyring not available")));
        }
        let _key = entry.to_key(profile_name);
        Ok(())
    }

    /// Reads a value; nothing without a keyring.
    pub fn get(&self, entry: KeyringEntry, profile_name: &str) -> (r: Result<Option<String>, CoreError>)
        ensures
            r == Ok::<Option<String>, CoreError>(None),
    {
        if !self.available {
            return Ok(None);
        }
        let _key = entry.to_key(profile_name);
        Ok(None)
    }

    /// Deletes a value; nothing to do without a keyring.
    pub fn delete(&self, entry: KeyringEntry, profile_name: &str) -> (r: Result<(), CoreError>)
        ensures
            r is Ok,
    {
        if !self.available {
            return Ok(());
        }
        let _key = entry.to_key(profile_name);
        Ok(())
    }

    /// Deletes every entry of a profile.
    pub fn delete_profile(&self, profile_name: &str) -> (r: Result<(), CoreError>)
        ensures
            r is Ok,
    {
        self.delete(KeyringEntry::SshKeyPath, profile_name)?;
        self.delete(KeyringEntry::ServerFingerprint, profile_name)?;
        Ok(())
    }
}

impl Default for KeyringManager {
    fn default() -> (r: KeyringManager)
        ensures
            !r.usable(),
    {
        KeyringManager::new()
    }
}

} // verus!
