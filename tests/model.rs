use reverse_ssh_core::config::{AppConfig, StrictHostKeyChecking};
use reverse_ssh_core::error::CoreError;
use reverse_ssh_core::keyring::{KeyringEntry, KeyringManager};
use reverse_ssh_core::monitor::{classify_exit, is_connection_established, MonitorResult, SshOutput};
use reverse_ssh_core::profile::{Profile, TunnelSpec};
use reverse_ssh_core::session::{format_uptime, Session, SessionStatus};
use reverse_ssh_core::text::decimal_string;

#[test]
fn test_tunnel_spec_to_ssh_arg() {
    let tunnel = TunnelSpec::new(8080, 3000);
    assert_eq!(tunnel.to_ssh_arg(), "localhost:8080:localhost:3000");
}

#[test]
fn tunnel_canonical_form_with_custom_hosts() {
    let t = TunnelSpec { remote_bind: "0.0.0.0".to_string(), remote_port: 0, local_host: "db".to_string(), local_port: 65535 };
    assert_eq!(t.to_ssh_arg(), "0.0.0.0:0:db:65535");
}

#[test]
fn test_profile_destination() {
    let profile = Profile::new("test", "example.com", "user");
    assert_eq!(profile.destination(), "user@example.com");
}

#[test]
fn profile_defaults() {
    let p = Profile::new("n", "h", "u").with_tunnel(TunnelSpec::new(1, 2));
    assert_eq!(p.port, 22);
    assert_eq!(p.keepalive_interval, 20);
    assert_eq!(p.keepalive_count, 3);
    assert!(p.auto_reconnect);
    assert_eq!(p.max_reconnect_attempts, 0);
    assert_eq!(p.tunnels.len(), 1);
}

#[test]
fn test_session_creation() {
    let profile = Profile::new("test", "example.com", "user");
    let session = Session::new(&profile);

    assert_eq!(session.profile_id, profile.id);
    assert_eq!(session.status, SessionStatus::Starting);
    assert!(session.is_running());
    assert!(!session.is_connected());
}

#[test]
fn running_statuses() {
    assert!(SessionStatus::Reconnecting.is_running());
    assert!(!SessionStatus::Stopped.is_running());
    assert!(!SessionStatus::Failed.is_running());
    assert_eq!(SessionStatus::Reconnecting.to_string(), "reconnecting");
}

#[test]
fn uptime_formatting() {
    assert_eq!(format_uptime(5), "5s");
    assert_eq!(format_uptime(125), "2m 5s");
    assert_eq!(format_uptime(7325), "2h 2m");
    assert_eq!(format_uptime(-3), "-3s");
    let p = Profile::new("p", "h", "u");
    let mut s = Session::create(7, &p, 0);
    assert_eq!(s.uptime_string_at(10_000), "-");
    s.connected_at = Some(1_000);
    assert_eq!(s.uptime_at(62_000), Some(61_000));
    assert_eq!(s.uptime_string_at(62_000), "1m 1s");
}

#[test]
fn decimal_text() {
    assert_eq!(decimal_string(0), "0");
    assert_eq!(decimal_string(18446744073709551615), "18446744073709551615");
}

#[test]
fn test_default_config() {
    let config = AppConfig::default();
    assert!(!config.general.start_minimized);
    assert_eq!(config.ssh.default_keepalive_interval, 20);
    assert_eq!(config.logging.level, "info");
    assert_eq!(config.web.port, 3847);
}

#[test]
fn test_strict_host_key_checking_to_option() {
    assert_eq!(StrictHostKeyChecking::Yes.to_ssh_option(), "yes");
    assert_eq!(StrictHostKeyChecking::AcceptNew.to_ssh_option(), "accept-new");
    assert_eq!(StrictHostKeyChecking::No.to_ssh_option(), "no");
}

#[test]
fn test_keyring_entry_key() {
    let key = KeyringEntry::SshKeyPath.to_key("my-server");
    assert_eq!(key, "ssh-key-path:my-server");

    let key = KeyringEntry::ServerFingerprint.to_key("my-server");
    assert_eq!(key, "server-fingerprint:my-server");
}

#[test]
fn test_keyring_manager_unavailable() {
    let manager = KeyringManager::new();
    assert!(!manager.is_available());

    assert!(manager.get(KeyringEntry::SshKeyPath, "test").unwrap().is_none());
}

#[test]
fn keyring_set_fails_when_unavailable() {
    let manager = KeyringManager::new();
    assert_eq!(
        manager.set(KeyringEntry::SshKeyPath, "p", "v"),
        Err(CoreError::StorageAccess("Keyring not available".to_string()))
    );
    assert!(manager.delete_profile("p").is_ok());
}

#[test]
fn test_ssh_output_enum() {
    let stdout = SshOutput::Stdout("test".to_string());
    let stderr = SshOutput::Stderr("error".to_string());
    let exit = SshOutput::Exit(Some(0));

    match stdout {
        SshOutput::Stdout(s) => assert_eq!(s, "test"),
        _ => panic!("Expected stdout"),
    }

    match stderr {
        SshOutput::Stderr(s) => assert_eq!(s, "error"),
        _ => panic!("Expected stderr"),
    }

    match exit {
        SshOutput::Exit(code) => assert_eq!(code, Some(0)),
        _ => panic!("Expected exit"),
    }
}

#[test]
fn test_monitor_result() {
    let result = MonitorResult::ExitedNormally;
    assert!(matches!(result, MonitorResult::ExitedNormally));

    let result = MonitorResult::ExitedWithError(1, "error".to_string());
    assert!(matches!(result, MonitorResult::ExitedWithError(1, _)));
}

#[test]
fn exit_classification() {
    assert!(matches!(classify_exit(Some(0), "x"), MonitorResult::ExitedNormally));
    match classify_exit(Some(255), "last") {
        MonitorResult::ExitedWithError(c, m) => {
            assert_eq!(c, 255);
            assert_eq!(m, "last");
        }
        _ => panic!("expected an error exit"),
    }
    assert!(matches!(classify_exit(None, ""), MonitorResult::Killed));
}

#[test]
fn connection_markers() {
    assert!(is_connection_established("Authenticated to h ([1.2.3.4]:22)."));
    assert!(is_connection_established("debug1: pledge: network"));
    assert!(is_connection_established("debug1: Entering interactive session."));
    assert!(is_connection_established("debug1: Remote connections from localhost:8080 forwarded"));
    assert!(!is_connection_established("Connection refused"));
}

#[test]
fn error_messages() {
    assert_eq!(
        CoreError::SshExitError { code: -1, message: "boom".to_string() }.message(),
        "SSH process exited with code -1: boom"
    );
    assert_eq!(CoreError::SshSpawnFailed("x".to_string()).message(), "SSH process failed to start: x");
    assert_eq!(CoreError::other("plain").message(), "plain");
}
