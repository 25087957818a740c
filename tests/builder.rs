use reverse_ssh_core::args::SshArgs;
use reverse_ssh_core::config::StrictHostKeyChecking;
use reverse_ssh_core::launch::{connection_check_args_for, connection_check_result, plan_launch, HelperLookup};
use reverse_ssh_core::profile::{AuthMethod, Profile, TunnelSpec};
use reverse_ssh_core::error::CoreError;
use reverse_ssh_core::validate::validate_args;

#[test]
fn test_ssh_args_basic() {
    let args = SshArgs::new()
        .option("ServerAliveInterval", "20")
        .port(2222)
        .destination("user@example.com")
        .build();

    assert!(args.contains(&"-o".to_string()));
    assert!(args.contains(&"ServerAliveInterval=20".to_string()));
    assert!(args.contains(&"-p".to_string()));
    assert!(args.contains(&"2222".to_string()));
    assert!(args.contains(&"user@example.com".to_string()));
}

#[test]
fn test_ssh_args_reverse_tunnel() {
    let tunnel = TunnelSpec::new(8080, 3000);
    let args = SshArgs::new()
        .reverse_tunnel(&tunnel)
        .destination("user@example.com")
        .build();

    assert!(args.contains(&"-R".to_string()));
    assert!(args.contains(&"localhost:8080:localhost:3000".to_string()));
}

#[test]
fn test_ssh_args_from_profile() {
    let mut profile = Profile::new("test", "example.com", "testuser");
    profile.tunnels.push(TunnelSpec::new(8080, 3000));
    profile.port = 2222;

    let args = SshArgs::from_profile(&profile).build();

    assert!(args.contains(&"-R".to_string()));
    assert!(args.contains(&"-p".to_string()));
    assert!(args.contains(&"2222".to_string()));
    assert!(args.contains(&"testuser@example.com".to_string()));
}

#[test]
fn test_validate_args_safe() {
    let args = vec![
        "-o".to_string(),
        "ServerAliveInterval=20".to_string(),
        "-R".to_string(),
        "localhost:8080:localhost:3000".to_string(),
        "user@example.com".to_string(),
    ];
    assert!(validate_args(&args).is_ok());
}

#[test]
fn test_validate_args_dangerous() {
    let args = vec!["-o".to_string(), "LocalCommand=rm -rf /".to_string()];
    assert!(validate_args(&args).is_err());
}

fn strings(v: &[&str]) -> Vec<String> {
    v.iter().map(|s| s.to_string()).collect()
}

#[test]
fn full_argument_order_for_agent_profile() {
    let mut p = Profile::new("p1", "h", "u");
    p.tunnels.push(TunnelSpec::new(8080, 3000));
    p.extra_options.push(("Compression".to_string(), "yes".to_string()));
    p.known_hosts_file = Some("/k".to_string());
    p.port = 2200;
    let args = SshArgs::from_profile(&p).build_tunnel_mode();
    assert_eq!(
        args,
        strings(&[
            "-N", "-T", "-R", "localhost:8080:localhost:3000", "-o", "ServerAliveInterval=20",
            "-o", "ServerAliveCountMax=3", "-o", "ExitOnForwardFailure=yes", "-o",
            "BatchMode=yes", "-o", "IdentitiesOnly=yes", "-o", "UserKnownHostsFile=/k", "-o",
            "Compression=yes", "-p", "2200", "u@h",
        ])
    );
}

#[test]
fn tunnels_are_emitted_in_order() {
    let mut p = Profile::new("p", "h", "u");
    p.tunnels.push(TunnelSpec::new(1, 2));
    p.tunnels.push(TunnelSpec {
        remote_bind: "0.0.0.0".to_string(),
        remote_port: 65535,
        local_host: "10.0.0.1".to_string(),
        local_port: 0,
    });
    let args = SshArgs::from_profile(&p).build();
    assert_eq!(&args[0..4], &strings(&["-R", "localhost:1:localhost:2", "-R", "0.0.0.0:65535:10.0.0.1:0"])[..]);
    assert_eq!(args.last().unwrap(), "u@h");
}

#[test]
fn key_file_path_follows_dash_i_once() {
    let mut p = Profile::new("p", "h", "u");
    p.auth = AuthMethod::KeyFile { path: "/home/u/.ssh/id".to_string() };
    let args = SshArgs::from_profile(&p).build();
    let positions: Vec<usize> = args.iter().enumerate().filter(|(_, a)| *a == "-i").map(|(i, _)| i).collect();
    assert_eq!(positions.len(), 1);
    assert_eq!(args[positions[0] + 1], "/home/u/.ssh/id");
    assert_eq!(args.iter().filter(|a| *a == "/home/u/.ssh/id").count(), 1);
}

#[test]
fn password_auth_omits_batch_mode() {
    let mut p = Profile::new("p", "h", "u");
    p.auth = AuthMethod::Password;
    let args = SshArgs::from_profile(&p).build();
    assert!(!args.iter().any(|a| a.contains("BatchMode")));
    assert!(!args.contains(&"IdentitiesOnly=yes".to_string()));
}

#[test]
fn default_port_is_not_emitted() {
    let p = Profile::new("p", "h", "u");
    let args = SshArgs::from_profile(&p).build();
    assert!(!args.contains(&"-p".to_string()));
}

#[test]
fn verbose_and_flags() {
    let args = SshArgs::new().verbose(0).verbose(1).verbose(2).verbose(7).no_tty().no_command().compression().build();
    assert_eq!(args, strings(&["-v", "-vv", "-vvv", "-T", "-N", "-C"]));
}

#[test]
fn strict_host_key_checking_option() {
    let args = SshArgs::new().strict_host_key_checking(StrictHostKeyChecking::AcceptNew).build();
    assert_eq!(args, strings(&["-o", "StrictHostKeyChecking=accept-new"]));
}

#[test]
fn options_in_given_order() {
    let opts = vec![("A".to_string(), "1".to_string()), ("B".to_string(), "2".to_string())];
    let args = SshArgs::new().options(&opts).build();
    assert_eq!(args, strings(&["-o", "A=1", "-o", "B=2"]));
}

#[test]
fn validate_rejects_each_pattern() {
    assert_eq!(validate_args(&strings(&["a\0b"])), Err("Argument contains null byte".to_string()));
    assert_eq!(
        validate_args(&strings(&["-o", "ProxyCommand=nc %h %p; rm x"])),
        Err("Potentially dangerous ProxyCommand detected".to_string())
    );
    assert_eq!(
        validate_args(&strings(&["-o", "proxycommand=a|b"])),
        Err("Potentially dangerous ProxyCommand detected".to_string())
    );
    assert_eq!(
        validate_args(&strings(&["-o", "ProxyCommand=a`b`"])),
        Err("Potentially dangerous ProxyCommand detected".to_string())
    );
    assert!(validate_args(&strings(&["-o", "ProxyCommand=ssh -W %h:%p jump"])).is_ok());
    assert_eq!(
        validate_args(&strings(&["-o", "PermitLocalCommand=yes"])),
        Err("PermitLocalCommand option is not allowed".to_string())
    );
    assert_eq!(
        validate_args(&strings(&["-o", "LOCALCOMMAND=x"])),
        Err("LocalCommand option is not allowed".to_string())
    );
}

#[test]
fn proxy_command_whole_value_is_screened() {
    assert_eq!(
        validate_args(&strings(&["ProxyCommand=a=b;c"])),
        Err("Potentially dangerous ProxyCommand detected".to_string())
    );
    assert!(validate_args(&strings(&["ProxyCommand=a=b"])).is_ok());
    assert!(validate_args(&strings(&["ProxyCommand"])).is_ok());
}

#[test]
fn key_file_with_same_identity_file_has_one_dash_i() {
    let mut p = Profile::new("p", "h", "u");
    p.auth = AuthMethod::KeyFile { path: "/k".to_string() };
    p.identity_file = Some("/k".to_string());
    let args = SshArgs::from_profile(&p).build();
    assert_eq!(args.iter().filter(|a| *a == "-i").count(), 1);
    assert_eq!(args.iter().filter(|a| *a == "/k").count(), 1);
    let mut q = Profile::new("q", "h", "u");
    q.identity_file = Some("/id".to_string());
    let args = SshArgs::from_profile(&q).build();
    assert_eq!(args.iter().filter(|a| *a == "-i").count(), 1);
}

#[test]
fn local_command_extra_option_fails_spawn_plan() {
    let mut p = Profile::new("p", "h", "u");
    p.tunnels.push(TunnelSpec::new(8080, 3000));
    p.extra_options.push(("LocalCommand".to_string(), "x".to_string()));
    match plan_launch("/usr/bin/ssh", &p, None, false, HelperLookup::NotInPath) {
        Err(CoreError::SshSpawnFailed(m)) => assert!(m.contains("LocalCommand")),
        _ => panic!("expected a spawn error"),
    }
}

#[test]
fn plan_for_agent_profile_runs_ssh_directly() {
    let mut p = Profile::new("p", "h", "u");
    p.tunnels.push(TunnelSpec::new(8080, 3000));
    let plan = plan_launch("/usr/bin/ssh", &p, None, false, HelperLookup::NotInPath).unwrap();
    assert_eq!(plan.program, "/usr/bin/ssh");
    assert_eq!(&plan.args[0..2], &strings(&["-N", "-T"])[..]);
    assert!(plan.password_env.is_none());
}

#[test]
fn plan_for_password_profile() {
    let mut p = Profile::new("p", "h", "u");
    p.auth = AuthMethod::Password;
    p.tunnels.push(TunnelSpec::new(8080, 3000));
    let e = plan_launch("/usr/bin/ssh", &p, None, false, HelperLookup::Found("/usr/bin/sshpass".to_string()));
    assert!(matches!(e, Err(CoreError::SshSpawnFailed(_))));
    let e = plan_launch("/usr/bin/ssh", &p, Some("pw".to_string()), false, HelperLookup::NotInPath);
    match e {
        Err(CoreError::SshSpawnFailed(m)) => assert!(m.contains("sshpass")),
        _ => panic!("expected a spawn error"),
    }
    let e = plan_launch("/usr/bin/ssh", &p, Some("pw".to_string()), false, HelperLookup::ExplicitMissing);
    assert!(matches!(e, Err(CoreError::SshSpawnFailed(_))));
    let plan = plan_launch("/usr/bin/ssh", &p, Some("pw".to_string()), false, HelperLookup::Found("/usr/bin/sshpass".to_string())).unwrap();
    assert_eq!(plan.program, "/usr/bin/sshpass");
    assert_eq!(&plan.args[0..4], &strings(&["-e", "/usr/bin/ssh", "-N", "-T"])[..]);
    assert_eq!(plan.password_env, Some("pw".to_string()));
    assert!(!plan.args.contains(&"pw".to_string()));
    assert!(!plan.args.iter().any(|a| a.contains("BatchMode")));
    let plan = plan_launch("/usr/bin/ssh", &p, None, true, HelperLookup::Found("/usr/bin/sshpass".to_string())).unwrap();
    assert!(plan.password_env.is_none());
}

#[test]
fn connection_check_arguments() {
    let p = Profile::new("p", "example.com", "u");
    assert_eq!(
        connection_check_args_for(&p),
        strings(&[
            "-o", "ServerAliveInterval=20", "-o", "ServerAliveCountMax=1", "-o", "ConnectTimeout=10",
            "-o", "BatchMode=yes", "-T", "-p", "22", "u@example.com", "exit",
        ])
    );
}

#[test]
fn connection_check_outcomes() {
    assert_eq!(connection_check_result(true, Some(0), String::new()), Ok(()));
    assert_eq!(
        connection_check_result(false, Some(255), "denied".to_string()),
        Err(CoreError::SshExitError { code: 255, message: "denied".to_string() })
    );
    assert_eq!(
        connection_check_result(false, None, String::new()),
        Err(CoreError::SshExitError { code: -1, message: String::new() })
    );
}
