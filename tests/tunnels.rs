use reverse_ssh_core::error::CoreError;
use reverse_ssh_core::profile::{AuthMethod, Profile, TunnelSpec};
use reverse_ssh_core::requests::{
    ApiAuthMethod, ApiSessionStatus, ApiTunnelSpec, CreateProfileRequest, UpdateProfileRequest,
};
use reverse_ssh_core::session::SessionStatus;
use reverse_ssh_core::tunnel_text::{parse_port, parse_tunnel_spec};

#[test]
fn tunnel_forms() {
    let t = parse_tunnel_spec("8080:3000").unwrap();
    assert_eq!(t, TunnelSpec::new(8080, 3000));
    let t = parse_tunnel_spec("8080:db:5432").unwrap();
    assert_eq!((t.remote_bind.as_str(), t.remote_port, t.local_host.as_str(), t.local_port), ("localhost", 8080, "db", 5432));
    let t = parse_tunnel_spec("0.0.0.0:80:web:8000").unwrap();
    assert_eq!(t.to_ssh_arg(), "0.0.0.0:80:web:8000");
}

#[test]
fn tunnel_errors() {
    assert_eq!(parse_tunnel_spec("x:1"), Err(CoreError::ProfileInvalid("Invalid remote port".to_string())));
    assert_eq!(parse_tunnel_spec("1:70000"), Err(CoreError::ProfileInvalid("Invalid local port".to_string())));
    assert!(matches!(parse_tunnel_spec("1"), Err(CoreError::ProfileInvalid(_))));
    assert!(matches!(parse_tunnel_spec("a:1:b:2:c"), Err(CoreError::ProfileInvalid(_))));
}

#[test]
fn canonical_form_reads_back() {
    let t = TunnelSpec { remote_bind: "0.0.0.0".to_string(), remote_port: 65535, local_host: "h".to_string(), local_port: 0 };
    assert_eq!(parse_tunnel_spec(&t.to_ssh_arg()).unwrap(), t);
}

#[test]
fn port_parsing_like_from_str() {
    assert_eq!(parse_port("22"), Some(22));
    assert_eq!(parse_port("+22"), Some(22));
    assert_eq!(parse_port("65535"), Some(65535));
    assert_eq!(parse_port("65536"), None);
    assert_eq!(parse_port("999999999999"), None);
    assert_eq!(parse_port(""), None);
    assert_eq!(parse_port("+"), None);
    assert_eq!(parse_port("-1"), None);
    assert_eq!(parse_port(" 1"), None);
}

fn api_tunnel() -> ApiTunnelSpec {
    ApiTunnelSpec { remote_bind: "localhost".to_string(), remote_port: 1, local_host: "localhost".to_string(), local_port: 2 }
}

#[test]
fn create_request_defaults() {
    let req = CreateProfileRequest {
        name: "n".to_string(),
        host: "h".to_string(),
        port: None,
        user: "u".to_string(),
        auth: None,
        tunnels: vec![api_tunnel()],
    };
    let p = req.to_profile(5).unwrap();
    assert_eq!(p.port, 22);
    assert_eq!(p.auth, AuthMethod::Agent);
    assert_eq!(p.tunnels, vec![TunnelSpec::new(1, 2)]);
    let empty = CreateProfileRequest { name: "n".to_string(), host: "h".to_string(), port: Some(2), user: "u".to_string(), auth: Some(ApiAuthMethod::Password), tunnels: vec![] };
    assert!(matches!(empty.to_profile(5), Err(CoreError::ProfileInvalid(_))));
}

#[test]
fn update_request_changes_given_fields() {
    let p = Profile::new("a", "h", "u").with_tunnel(TunnelSpec::new(1, 2));
    let req = UpdateProfileRequest {
        name: Some("b".to_string()),
        host: None,
        port: Some(2200),
        user: None,
        auth: Some(ApiAuthMethod::KeyFile { path: "/k".to_string() }),
        tunnels: None,
    };
    let q = req.apply(p.clone()).unwrap();
    assert_eq!(q.name, "b");
    assert_eq!(q.host, "h");
    assert_eq!(q.port, 2200);
    assert_eq!(q.auth, AuthMethod::KeyFile { path: "/k".to_string() });
    assert_eq!(q.tunnels, p.tunnels);
    let bad = UpdateProfileRequest { name: None, host: None, port: None, user: None, auth: None, tunnels: Some(vec![]) };
    assert!(matches!(bad.apply(p), Err(CoreError::ProfileInvalid(_))));
}

#[test]
fn status_mapping() {
    assert_eq!(ApiSessionStatus::from_status(SessionStatus::Reconnecting), ApiSessionStatus::Reconnecting);
    assert_eq!(ApiSessionStatus::from_status(SessionStatus::Failed), ApiSessionStatus::Failed);
}
