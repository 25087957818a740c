//! Supervision of reverse SSH tunnels: the data model, the SSH argument
//! builder, backoff, session state machines and persistence rules.

pub mod args;
pub mod backoff;
pub mod config;
pub mod detect;
pub mod error;
pub mod events;
pub mod ids;
pub mod keyring;
pub mod known_hosts;
pub mod launch;
pub mod manager;
pub mod monitor;
pub mod paths;
pub mod profile;
pub mod redact;
pub mod requests;
pub mod session;
pub mod state;
pub mod store;
pub mod supervisor;
pub mod text;
pub mod tunnel_text;
pub mod validate;
