use reverse_ssh_core::error::CoreError;
use reverse_ssh_core::paths::{
    cache_dir, config_dir, config_file, config_file_in, data_dir, known_hosts_file, logs_dir, profiles_dir,
    profiles_dir_in, state_file, state_file_in,
};
use reverse_ssh_core::detect::get_common_windows_ssh_paths;
use reverse_ssh_core::ids::uuid_text;
use reverse_ssh_core::profile::{Profile, TunnelSpec};
use reverse_ssh_core::state::StateManager;
use reverse_ssh_core::session::{Session, SessionStatus};
use reverse_ssh_core::store::{
    check_new_profile, is_profile_file_name, plan_update, profile_file_name, sanitize_filename,
};

#[test]
fn test_sanitize_filename() {
    assert_eq!(sanitize_filename("my-profile"), "my-profile");
    assert_eq!(sanitize_filename("my profile"), "my_profile");
    assert_eq!(sanitize_filename("test@server"), "test_server");
    assert_eq!(sanitize_filename("profile/with/slashes"), "profile_with_slashes");
}

#[test]
fn sanitize_examples() {
    assert_eq!(sanitize_filename("a/b/c"), "a_b_c");
    assert_eq!(sanitize_filename("ok-name_1"), "ok-name_1");
    assert_eq!(sanitize_filename("é"), "_");
    assert_eq!(profile_file_name("my profile"), "my_profile.toml");
}

#[test]
fn test_paths_are_absolute_or_relative() {
    let _ = config_dir();
    let _ = data_dir();
    let _ = cache_dir();
    let _ = logs_dir();
    let _ = config_file();
    let _ = profiles_dir();
    let _ = state_file();
    let _ = known_hosts_file();
}

#[test]
fn paths_below_injected_roots() {
    assert_eq!(config_file_in("/r/config"), "/r/config/config.toml");
    assert_eq!(profiles_dir_in("/r/config/"), "/r/config/profiles");
    assert_eq!(state_file_in("data"), "data/state.json");
}

#[test]
fn profile_files() {
    assert!(is_profile_file_name("a.toml"));
    assert!(!is_profile_file_name(".toml"));
    assert!(!is_profile_file_name("a.json"));
}

fn profile(name: &str) -> Profile {
    Profile::new(name, "h", "u").with_tunnel(TunnelSpec::new(1, 2))
}

#[test]
fn creation_rules() {
    let existing = vec![profile("a")];
    assert!(check_new_profile(&existing, &profile("b")).is_ok());
    assert_eq!(check_new_profile(&existing, &profile("a")), Err(CoreError::ProfileAlreadyExists("a".to_string())));
    assert!(matches!(check_new_profile(&existing, &profile("")), Err(CoreError::ProfileInvalid(_))));
    let no_tunnels = Profile::new("c", "h", "u");
    assert!(matches!(check_new_profile(&existing, &no_tunnels), Err(CoreError::ProfileInvalid(_))));
}

#[test]
fn update_rules() {
    let existing = vec![profile("a"), profile("b")];
    assert_eq!(plan_update(&existing, "x", "y"), Err(CoreError::ProfileNotFound("x".to_string())));
    assert_eq!(plan_update(&existing, "a", "b"), Err(CoreError::ProfileAlreadyExists("b".to_string())));
    assert_eq!(plan_update(&existing, "a", "a"), Ok(None));
    assert_eq!(plan_update(&existing, "a", "new name"), Ok(Some("a.toml".to_string())));
}

#[test]
fn state_snapshot() {
    let p1 = profile("a");
    let p2 = profile("b");
    let mut s1 = Session::create(1, &p1, 0);
    s1.status = SessionStatus::Connected;
    let s2 = Session::create(2, &p2, 0);
    let mut m = StateManager::with_path("/tmp/state.json");
    m.update_sessions(&[s1, s2]);
    assert_eq!(m.state().sessions.len(), 2);
    assert_eq!(m.get_auto_start_profiles(), vec![p1.id]);
    m.set_last_active_profile(Some(p2.id));
    assert_eq!(m.state().last_active_profile, Some(p2.id));
    m.clear();
    assert!(m.state().sessions.is_empty());
    assert!(m.state().last_active_profile.is_none());
}

#[test]
fn duplicate_option_keys_are_refused() {
    let mut p = profile("d");
    p.extra_options.push(("A".to_string(), "1".to_string()));
    p.extra_options.push(("A".to_string(), "2".to_string()));
    assert!(matches!(check_new_profile(&vec![], &p), Err(CoreError::ProfileInvalid(_))));
}

#[test]
fn windows_candidates() {
    assert_eq!(
        get_common_windows_ssh_paths(Some("D:\\Win".to_string()), None, Some("C:\\PD".to_string())),
        vec![
            "D:\\Win\\System32\\OpenSSH\\ssh.exe".to_string(),
            "C:\\Windows\\System32\\OpenSSH\\ssh.exe".to_string(),
            "C:\\Program Files\\Git\\usr\\bin\\ssh.exe".to_string(),
            "C:\\PD\\chocolatey\\bin\\ssh.exe".to_string(),
        ]
    );
}

#[test]
fn uuid_text_matches_uuid_display() {
    for v in [0u128, 1, 0x0123_4567_89ab_cdef_fedc_ba98_7654_3210, u128::MAX] {
        assert_eq!(uuid_text(v), uuid::Uuid::from_u128(v).to_string());
    }
}
