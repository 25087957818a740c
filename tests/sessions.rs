use reverse_ssh_core::backoff::Backoff;
use reverse_ssh_core::error::CoreError;
use reverse_ssh_core::events::Event;
use reverse_ssh_core::manager::{SessionTable, StartSessionOptions};
use reverse_ssh_core::profile::{Profile, TunnelSpec};
use reverse_ssh_core::session::{Session, SessionStatus};
use reverse_ssh_core::supervisor::{default_backoff, Action, Phase, Supervisor, SupervisorInput};

fn profile(max_attempts: u32, auto: bool) -> Profile {
    let mut p = Profile::new("p1", "h", "u").with_tunnel(TunnelSpec::new(8080, 3000));
    p.max_reconnect_attempts = max_attempts;
    p.auto_reconnect = auto;
    p
}

fn supervisor(p: &Profile, initial_ms: u64) -> Supervisor {
    let b = default_backoff(p).with_initial_delay(initial_ms);
    Supervisor::new(Session::create(1, p, 0), p, b)
}

#[derive(Debug, PartialEq)]
enum Seen {
    Status(SessionStatus, SessionStatus),
    Connected,
    Disconnected,
    Reconnecting(u32, u32),
    Failed,
    Output,
    Spawn,
    Sleep(u64),
    Kill,
    Finish,
}

fn seen(actions: &[Action]) -> Vec<Seen> {
    actions
        .iter()
        .map(|a| match a {
            Action::Spawn => Seen::Spawn,
            Action::Sleep(d) => Seen::Sleep(*d),
            Action::Kill => Seen::Kill,
            Action::Finish => Seen::Finish,
            Action::Emit(Event::SessionStatusChanged { old_status, new_status, .. }) => Seen::Status(*old_status, *new_status),
            Action::Emit(Event::SessionConnected { .. }) => Seen::Connected,
            Action::Emit(Event::SessionDisconnected { .. }) => Seen::Disconnected,
            Action::Emit(Event::SessionReconnecting { attempt, max_attempts, .. }) => Seen::Reconnecting(*attempt, *max_attempts),
            Action::Emit(Event::SessionFailed { .. }) => Seen::Failed,
            Action::Emit(Event::SessionOutput { .. }) => Seen::Output,
            Action::Emit(_) => panic!("unexpected event"),
        })
        .collect()
}

#[test]
fn happy_path_connects_then_stops() {
    let p = profile(0, true);
    let mut s = supervisor(&p, 1000);
    assert!(s.step(SupervisorInput::Spawned(4242), 1).is_empty());
    let a = s.step(SupervisorInput::Line("Authenticated to h ([1.2.3.4]:22).".to_string(), true), 2);
    assert_eq!(seen(&a), vec![Seen::Output, Seen::Status(SessionStatus::Starting, SessionStatus::Connected), Seen::Connected]);
    assert_eq!(s.session().status, SessionStatus::Connected);
    assert_eq!(s.session().pid, Some(4242));
    assert_eq!(s.session().connected_at, Some(2));
    let a = s.step(SupervisorInput::StopRequested, 3);
    assert_eq!(seen(&a), vec![Seen::Status(SessionStatus::Connected, SessionStatus::Stopped), Seen::Kill, Seen::Finish]);
    assert_eq!(s.session().status, SessionStatus::Stopped);
}

#[test]
fn retry_then_succeed() {
    let p = profile(0, true);
    let mut s = supervisor(&p, 10);
    s.step(SupervisorInput::Spawned(1), 0);
    s.step(SupervisorInput::Line("ssh: connect to host h port 22: Connection refused".to_string(), true), 0);
    let a = s.step(SupervisorInput::Exited(Some(255)), 0);
    assert_eq!(
        seen(&a),
        vec![
            Seen::Status(SessionStatus::Starting, SessionStatus::Reconnecting),
            Seen::Disconnected,
            Seen::Reconnecting(1, 0),
            Seen::Sleep(10),
        ]
    );
    assert_eq!(s.session().last_error.as_deref(), Some("ssh: connect to host h port 22: Connection refused"));
    assert_eq!(seen(&s.step(SupervisorInput::SleepElapsed, 0)), vec![Seen::Spawn]);
    assert_eq!(seen(&s.step(SupervisorInput::Spawned(2), 0)), vec![Seen::Status(SessionStatus::Reconnecting, SessionStatus::Starting)]);
    let a = s.step(SupervisorInput::Line("Authenticated to h".to_string(), true), 0);
    assert!(seen(&a).contains(&Seen::Connected));
    assert_eq!(s.session().reconnect_count, 1);
}

#[test]
fn retry_budget_of_two() {
    let p = profile(2, true);
    let mut s = supervisor(&p, 1000);
    let mut all = Vec::new();
    loop {
        all.extend(seen(&s.step(SupervisorInput::Spawned(1), 0)));
        all.extend(seen(&s.step(SupervisorInput::Exited(Some(1)), 0)));
        if s.phase() == Phase::Done {
            break;
        }
        all.extend(seen(&s.step(SupervisorInput::SleepElapsed, 0)));
    }
    let reconnecting = all.iter().filter(|e| matches!(e, Seen::Reconnecting(..))).count();
    assert_eq!(reconnecting, 2);
    assert_eq!(all.iter().filter(|e| **e == Seen::Failed).count(), 1);
    assert_eq!(s.session().status, SessionStatus::Failed);
    let delays: Vec<u64> = all.iter().filter_map(|e| if let Seen::Sleep(d) = e { Some(*d) } else { None }).collect();
    assert_eq!(delays, vec![1000, 2000]);
}

#[test]
fn spawn_failures_exhaust_three_attempts() {
    let p = profile(3, true);
    let mut s = supervisor(&p, 1000);
    let mut all = Vec::new();
    loop {
        all.extend(seen(&s.step(SupervisorInput::SpawnFailed("no ssh".to_string()), 0)));
        if s.phase() == Phase::Done {
            break;
        }
        all.extend(seen(&s.step(SupervisorInput::SleepElapsed, 0)));
    }
    assert_eq!(all.iter().filter(|e| matches!(e, Seen::Reconnecting(..))).count(), 3);
    assert_eq!(s.session().status, SessionStatus::Failed);
    assert_eq!(s.session().last_error.as_deref(), Some("no ssh"));
}

#[test]
fn no_reconnect_fails_on_first_error_exit() {
    let p = profile(0, false);
    let mut s = supervisor(&p, 1000);
    s.step(SupervisorInput::Spawned(1), 0);
    let a = s.step(SupervisorInput::Exited(Some(2)), 0);
    assert_eq!(seen(&a), vec![Seen::Status(SessionStatus::Starting, SessionStatus::Failed), Seen::Disconnected, Seen::Failed, Seen::Finish]);
    assert_eq!(s.session().status, SessionStatus::Failed);
}

#[test]
fn clean_exit_without_reconnect_stops() {
    let p = profile(0, false);
    let mut s = supervisor(&p, 1000);
    s.step(SupervisorInput::Spawned(1), 0);
    let a = s.step(SupervisorInput::Exited(Some(0)), 0);
    assert_eq!(seen(&a), vec![Seen::Status(SessionStatus::Starting, SessionStatus::Stopped), Seen::Finish]);
}

#[test]
fn stop_during_backoff() {
    let p = profile(2, true);
    let mut s = supervisor(&p, 10_000);
    s.step(SupervisorInput::Spawned(1), 0);
    let a = s.step(SupervisorInput::Exited(Some(1)), 0);
    assert!(seen(&a).contains(&Seen::Sleep(10_000)));
    let a = s.step(SupervisorInput::StopRequested, 0);
    assert_eq!(seen(&a), vec![Seen::Status(SessionStatus::Reconnecting, SessionStatus::Stopped), Seen::Finish]);
    assert_eq!(s.session().status, SessionStatus::Stopped);
    assert!(s.step(SupervisorInput::SleepElapsed, 0).is_empty());
    assert!(s.step(SupervisorInput::Exited(Some(1)), 0).is_empty());
}

#[test]
fn killed_child_ends_loop() {
    let p = profile(0, true);
    let mut s = supervisor(&p, 1000);
    s.step(SupervisorInput::Spawned(1), 0);
    assert_eq!(seen(&s.step(SupervisorInput::Exited(None), 0)), vec![Seen::Finish]);
    assert_eq!(s.phase(), Phase::Done);
}

#[test]
fn status_check_failure_counts_as_error_exit() {
    let p = profile(0, false);
    let mut s = supervisor(&p, 1000);
    s.step(SupervisorInput::Spawned(1), 0);
    s.step(SupervisorInput::StatusCheckFailed, 0);
    assert_eq!(s.session().status, SessionStatus::Failed);
    assert_eq!(s.session().last_error.as_deref(), Some("Failed to check process status"));
}

fn table() -> SessionTable {
    let mut t = SessionTable::new();
    t.set_ssh_path("/usr/bin/ssh".to_string());
    t
}

#[test]
fn double_start_is_refused() {
    let p = profile(0, true);
    let mut t = table();
    assert_eq!(t.start(&p, 10, default_backoff(&p), 0), Ok(10));
    assert_eq!(
        t.start(&p, 11, default_backoff(&p), 0),
        Err(CoreError::SessionAlreadyRunning("p1".to_string()))
    );
    assert_eq!(t.status().len(), 1);
}

#[test]
fn stop_removes_and_reports_stopped() {
    let p = profile(0, true);
    let mut t = table();
    t.start(&p, 10, default_backoff(&p), 0).unwrap();
    t.deliver(10, SupervisorInput::Spawned(99), 0);
    let a = t.stop(10, 0).unwrap();
    assert_eq!(seen(&a), vec![Seen::Status(SessionStatus::Starting, SessionStatus::Stopped), Seen::Kill, Seen::Finish]);
    assert!(t.status().is_empty());
    assert!(matches!(t.stop(10, 0), Err(CoreError::SessionNotFound(_))));
    assert_eq!(t.start(&p, 12, default_backoff(&p), 0), Ok(12));
}

#[test]
fn finished_sessions_leave_the_table() {
    let p = profile(0, false);
    let mut t = table();
    t.start(&p, 10, default_backoff(&p), 0).unwrap();
    t.deliver(10, SupervisorInput::Spawned(1), 0);
    t.deliver(10, SupervisorInput::Exited(Some(3)), 0);
    assert!(t.status().is_empty());
    assert!(t.deliver(10, SupervisorInput::SleepElapsed, 0).is_empty());
}

#[test]
fn shutdown_closes_the_table() {
    let p = profile(0, true);
    let mut t = table();
    t.start(&p, 10, default_backoff(&p), 0).unwrap();
    t.shutdown(0);
    assert!(t.is_closed());
    assert!(t.status().is_empty());
    assert_eq!(t.start(&p, 11, default_backoff(&p), 0), Err(CoreError::Other("Manager channel closed".to_string())));
}

#[test]
fn start_needs_ssh() {
    let p = profile(0, true);
    let mut t = SessionTable::new();
    assert_eq!(t.start(&p, 1, default_backoff(&p), 0), Err(CoreError::Other("SSH not detected".to_string())));
}

#[test]
fn start_options_default_to_no_password() {
    assert!(StartSessionOptions::default().password.is_none());
    let b = Backoff::new();
    assert_eq!(b.attempt(), 0);
}

#[test]
fn stop_all_stops_every_row_in_order() {
    let p1 = profile(0, true);
    let mut p2 = profile(0, true);
    p2.id = p1.id.wrapping_add(1);
    p2.name = "p2".to_string();
    let mut t = table();
    t.start(&p1, 1, default_backoff(&p1), 0).unwrap();
    t.start(&p2, 2, default_backoff(&p2), 0).unwrap();
    t.deliver(1, SupervisorInput::Spawned(11), 0);
    let a = t.stop_all(0);
    assert_eq!(
        seen(&a),
        vec![
            Seen::Status(SessionStatus::Starting, SessionStatus::Stopped),
            Seen::Kill,
            Seen::Finish,
            Seen::Status(SessionStatus::Starting, SessionStatus::Stopped),
            Seen::Finish,
        ]
    );
    assert!(t.status().is_empty());
}

#[test]
fn status_shows_connected_session_with_pid() {
    let p = profile(0, true);
    let mut t = table();
    t.start(&p, 7, default_backoff(&p), 0).unwrap();
    t.deliver(7, SupervisorInput::Spawned(4242), 1);
    let a = t.deliver(7, SupervisorInput::Line("Authenticated to h".to_string(), true), 2);
    match &a[0] {
        Action::Emit(Event::SessionOutput { output, is_stderr, .. }) => {
            assert_eq!(output, "Authenticated to h");
            assert!(*is_stderr);
        }
        _ => panic!("expected the output line first"),
    }
    let rows = t.status();
    assert_eq!(rows.len(), 1);
    assert_eq!(rows[0].profile_id, p.id);
    assert_eq!(rows[0].status, SessionStatus::Connected);
    assert_eq!(rows[0].pid, Some(4242));
    assert_eq!(rows[0].connected_at, Some(2));
}

#[test]
fn taken_session_id_is_refused() {
    let p1 = profile(0, true);
    let mut p2 = profile(0, true);
    p2.id = p1.id.wrapping_add(1);
    let mut t = table();
    t.start(&p1, 1, default_backoff(&p1), 0).unwrap();
    assert_eq!(t.start(&p2, 1, default_backoff(&p2), 0), Err(CoreError::Other("Session id already in use".to_string())));
}

#[test]
fn failed_exit_reports_last_line() {
    let p = profile(0, false);
    let mut s = supervisor(&p, 1000);
    s.step(SupervisorInput::Spawned(1), 0);
    s.step(SupervisorInput::Line("Permission denied (publickey).".to_string(), true), 0);
    let a = s.step(SupervisorInput::Exited(Some(255)), 0);
    match (&a[1], &a[2]) {
        (Action::Emit(Event::SessionDisconnected { reason, .. }), Action::Emit(Event::SessionFailed { error, .. })) => {
            assert_eq!(reason.as_deref(), Some("Permission denied (publickey)."));
            assert_eq!(error, "Permission denied (publickey).");
        }
        _ => panic!("expected disconnected then failed"),
    }
    assert_eq!(s.session().last_error.as_deref(), Some("Permission denied (publickey)."));
}

#[test]
fn start_refuses_local_command_option() {
    let mut p = profile(0, true);
    p.extra_options.push(("LocalCommand".to_string(), "x".to_string()));
    let mut t = table();
    match t.start(&p, 1, default_backoff(&p), 0) {
        Err(CoreError::SshSpawnFailed(m)) => assert!(m.contains("LocalCommand")),
        other => panic!("expected a spawn error, got {:?}", other),
    }
    assert!(t.status().is_empty());
}

#[test]
fn connect_then_fail_event_order() {
    let p = profile(0, true);
    let mut s = supervisor(&p, 1000);
    s.step(SupervisorInput::Spawned(1), 0);
    let mut all = seen(&s.step(SupervisorInput::Line("Authenticated to h".to_string(), true), 0));
    all.extend(seen(&s.step(SupervisorInput::Exited(Some(1)), 0)));
    assert_eq!(
        &all[..5],
        &[
            Seen::Output,
            Seen::Status(SessionStatus::Starting, SessionStatus::Connected),
            Seen::Connected,
            Seen::Status(SessionStatus::Connected, SessionStatus::Reconnecting),
            Seen::Disconnected,
        ]
    );
}
