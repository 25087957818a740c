//! Where the application keeps its files. The platform's base directories
//! come from the environment; everything below them is fixed.

use vstd::prelude::*;
use vstd::string::StrSliceExecFns;

use crate::text::{append_str, owned};

verus! {

/// Relies on `directories::ProjectDirs::from` and `ProjectDirs::config_dir`:
/// the platform's configuration directory for the application, if the
/// platform names one. It depends on the environment; nothing is promised.
#[verifier::external_body]
fn platform_config_dir(qualifier: &str, organization: &str, application: &str) -> (r: Option<
    String,
>) {
    directories::ProjectDirs::from(qualifier, organization, application).map(
        |d| d.config_dir().to_string_lossy().into_owned(),
    )
}

/// Relies on `directories::ProjectDirs::from` and `ProjectDirs::data_dir`:
/// the platform's data directory for the application, if any.
#[verifier::external_body]
fn platform_data_dir(qualifier: &str, organization: &str, application: &str) -> (r: Option<
    String,
>) {
    directories::ProjectDirs::from(qualifier, organization, application).map(
        |d| d.data_dir().to_string_lossy().into_owned(),
    )
}

/// Relies on `directories::ProjectDirs::from` and `ProjectDirs::cache_dir`:
/// the platform's cache directory for the application, if any.
#[verifier::external_body]
fn platform_cache_dir(qualifier: &str, organization: &str, application: &str) -> (r: Option<
    String,
>) {
    directories::ProjectDirs::from(qualifier, organization, application).map(
        |d| d.cache_dir().to_string_lossy().into_owned(),
    )
}

/// `name` below `base`.
pub open spec fn joined_path(base: Seq<char>, name: Seq<char>) -> Seq<char> {
    if base.len() > 0 && base.last() == '/' {
        base + name
    } else {
        base + "/"@ + name
    }
}

/// The path of `name` below `base`.
pub fn join(base: &str, name: &str) -> (r: String)
    ensures
        r@ == joined_path(base@, name@),
{
    let n = base.unicode_len();
    let mut s = owned(base);
    if !(n > 0 && base.get_char(n - 1) == '/') {
        append_str(&mut s, "/");
    }
    append_str(&mut s, name);
    s
}

/// The directory the platform names, or `./<fallback>`.
pub open spec fn dir_or(found: Option<String>, fallback: Seq<char>) -> Seq<char> {
    match found {
        Some(d) => d@,
        None => joined_path("."@, fallback),
    }
}

/// The directory the platform names, or `./<fallback>` when it names none.
pub fn dir_or_fallback(found: Option<String>, fallback: &str) -> (r: String)
    ensures
        r@ == dir_or(found, fallback@),
{
    match found {
        Some(d) => d,
        None => join(".", fallback),
    }
}

/// Qualifier of the application's platform directories.
pub const APP_QUALIFIER: &'static str = "com";

/// Organization of the application's platform directories.
pub const APP_ORGANIZATION: &'static str = "reverse-ssh";

/// Name of the application's platform directories.
pub const APP_NAME: &'static str = "reverse-ssh-interface";

/// The configuration directory: the platform's, or `./config`. What the
/// platform names depends on the environment; `dir_or_fallback` states the
/// rule.
pub fn config_dir() -> (r: String)
    ensures
        exists|found: Option<String>| r@ == #[trigger] dir_or(found, "config"@),
{
    let found = platform_config_dir(APP_QUALIFIER, APP_ORGANIZATION, APP_NAME);
    dir_or_fallback(found, "config")
}

/// The data directory: the platform's, or `./data`.
pub fn data_dir() -> (r: String)
    ensures
        exists|found: Option<String>| r@ == #[trigger] dir_or(found, "data"@),
{
    let found = platform_data_dir(APP_QUALIFIER, APP_ORGANIZATION, APP_NAME);
    dir_or_fallback(found, "data")
}

/// The cache directory: the platform's, or `./cache`.
pub fn cache_dir() -> (r: String)
    ensures
        exists|found: Option<String>| r@ == #[trigger] dir_or(found, "cache"@),
{
    let found = platform_cache_dir(APP_QUALIFIER, APP_ORGANIZATION, APP_NAME);
    dir_or_fallback(found, "cache")
}

/// `logs` below a data directory.
pub fn logs_dir_in(data: &str) -> (r: String)
    ensures
        r@ == joined_path(data@, "logs"@),
{
    join(data, "logs")
}

/// `config.toml` below a configuration directory.
pub fn config_file_in(config: &str) -> (r: String)
    ensures
        r@ == joined_path(config@, "config.toml"@),
{
    join(config, "config.toml")
}

/// `profiles` below a configuration directory.
pub fn profiles_dir_in(config: &str) -> (r: String)
    ensures
        r@ == joined_path(config@, "profiles"@),
{
    join(config, "profiles")
}

/// `state.json` below a data directory.
pub fn state_file_in(data: &str) -> (r: String)
    ensures
        r@ == joined_path(data@, "state.json"@),
{
    join(data, "state.json")
}

/// `known_hosts` below a configuration directory.
pub fn known_hosts_file_in(config: &str) -> (r: String)
    ensures
        r@ == joined_path(config@, "known_hosts"@),
{
    join(config, "known_hosts")
}

/// The logs directory.
pub fn logs_dir() -> (r: String)
    ensures
        exists|found: Option<String>| r@ == joined_path(#[trigger] dir_or(found, "data"@), "logs"@),
{
    let d = data_dir();
    logs_dir_in(d.as_str())
}

/// The application configuration file.
pub fn config_file() -> (r: String)
    ensures
        exists|found: Option<String>| r@ == joined_path(#[trigger] dir_or(found, "config"@), "config.toml"@),
{
    let d = config_dir();
    config_file_in(d.as_str())
}

/// The profiles directory.
pub fn profiles_dir() -> (r: String)
    ensures
        exists|found: Option<String>| r@ == joined_path(#[trigger] dir_or(found, "config"@), "profiles"@),
{
    let d = config_dir();
    profiles_dir_in(d.as_str())
}

/// The state file.
pub fn state_file() -> (r: String)
    ensures
        exists|found: Option<String>| r@ == joined_path(#[trigger] dir_or(found, "data"@), "state.json"@),
{
    let d = data_dir();
    state_file_in(d.as_str())
}

/// The application's known-hosts file.
pub fn known_hosts_file() -> (r: String)
    ensures
        exists|found: Option<String>| r@ == joined_path(#[trigger] dir_or(found, "config"@), "known_hosts"@),
{
    let d = config_dir();
    known_hosts_file_in(d.as_str())
}

} // verus!
