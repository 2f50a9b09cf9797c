use tibs::session_manager::{
    classify_poll, teardown_actions, PollOutcome, SessionError, SessionManager, SessionPlan,
    SessionStatus, SpawnOutcome,
};

fn manager_on_tty(tty: u16) -> SessionManager {
    SessionManager::new(tty, Vec::new())
}

#[test]
fn start_session_for_authenticated_user_takes_lowest_free_tty() {
    // Greeter occupies terminal 1; the first session gets terminal 0.
    let mut mgr = manager_on_tty(1);
    let r = mgr.start_session(Some(1000), SpawnOutcome::Spawned);
    assert_eq!(r, Ok(SessionPlan { user_id: 1000, tty_number: 0 }));
    assert!(mgr.is_running(1000));
    assert_eq!(mgr.get_session_state_of_user(1000), Some(SessionStatus::Running));
}

#[test]
fn plan_session_names_the_tty_the_start_will_use() {
    let mgr = manager_on_tty(1);
    assert_eq!(mgr.plan_session(Some(1000)), Ok(SessionPlan { user_id: 1000, tty_number: 0 }));
    assert_eq!(mgr.plan_session(None), Err(SessionError::NotAuthenticated));
}

#[test]
fn unauthenticated_start_fails_and_changes_nothing() {
    let mut mgr = manager_on_tty(1);
    let r = mgr.start_session(None, SpawnOutcome::Spawned);
    assert_eq!(r, Err(SessionError::NotAuthenticated));
    assert!(!mgr.is_running(0));
    assert_eq!(mgr.get_session_state_of_user(0), None);
    // The next allocation is untouched by the failed attempt.
    assert_eq!(mgr.next_tty(), Some(0));
}

#[test]
fn concurrent_running_sessions_get_distinct_ttys() {
    let mut mgr = manager_on_tty(1);
    let a = mgr.start_session(Some(1000), SpawnOutcome::Spawned).unwrap();
    let b = mgr.start_session(Some(1001), SpawnOutcome::Spawned).unwrap();
    assert_ne!(a.tty_number, b.tty_number);
    assert_ne!(a.tty_number, 1);
    assert_ne!(b.tty_number, 1);
    // Terminal 1 is the greeter's, so the two sessions sit on 0 and 2.
    assert_eq!(a.tty_number, 0);
    assert_eq!(b.tty_number, 2);
}

#[test]
fn exhausting_all_terminals_fails_without_side_effects() {
    let mut mgr = manager_on_tty(1);
    // 63 terminal numbers exist; one is the greeter's, so 62 sessions fit.
    for uid in 0..62u32 {
        let r = mgr.start_session(Some(uid), SpawnOutcome::Spawned);
        assert!(r.is_ok());
    }
    assert_eq!(mgr.next_tty(), None);
    let r = mgr.start_session(Some(9999), SpawnOutcome::Spawned);
    assert_eq!(r, Err(SessionError::NoFreeTty));
    assert_eq!(mgr.get_session_state_of_user(9999), None);
    // Every earlier session is still tracked as running.
    for uid in 0..62u32 {
        assert!(mgr.is_running(uid));
    }
}

#[test]
fn tty_open_failure_and_spawn_failure_register_nothing() {
    let mut mgr = manager_on_tty(1);
    assert_eq!(
        mgr.start_session(Some(7), SpawnOutcome::TtyUnavailable),
        Err(SessionError::NoFreeTty)
    );
    assert_eq!(
        mgr.start_session(Some(7), SpawnOutcome::SpawnFailed),
        Err(SessionError::SpawnFailed)
    );
    assert_eq!(mgr.get_session_state_of_user(7), None);
}

#[test]
fn successful_exit_reports_graceful_shutdown() {
    let mut mgr = manager_on_tty(1);
    mgr.start_session(Some(1000), SpawnOutcome::Spawned).unwrap();
    mgr.record_poll(1000, PollOutcome::Exited { success: true });
    assert_eq!(
        mgr.get_session_state_of_user(1000),
        Some(SessionStatus::ShutdownGracefully)
    );
    assert!(!mgr.is_running(1000));
    assert!(!mgr.has_crashed(1000));
}

#[test]
fn failing_exit_reports_crash() {
    let mut mgr = manager_on_tty(1);
    mgr.start_session(Some(1000), SpawnOutcome::Spawned).unwrap();
    mgr.record_poll(1000, PollOutcome::Exited { success: false });
    assert_eq!(mgr.get_session_state_of_user(1000), Some(SessionStatus::Crashed));
    assert!(mgr.has_crashed(1000));
}

#[test]
fn poll_failure_counts_as_crash() {
    assert_eq!(classify_poll(PollOutcome::PollFailed), SessionStatus::Crashed);
    assert_eq!(classify_poll(PollOutcome::StillExecuting), SessionStatus::Running);
    assert_eq!(
        classify_poll(PollOutcome::Exited { success: true }),
        SessionStatus::ShutdownGracefully
    );
    assert_eq!(
        classify_poll(PollOutcome::Exited { success: false }),
        SessionStatus::Crashed
    );
}

#[test]
fn status_never_returns_to_running() {
    let mut mgr = manager_on_tty(1);
    mgr.start_session(Some(1000), SpawnOutcome::Spawned).unwrap();
    mgr.record_poll(1000, PollOutcome::Exited { success: true });
    // Later polls, whatever they say, do not resurrect the session.
    mgr.record_poll(1000, PollOutcome::StillExecuting);
    assert_eq!(
        mgr.get_session_state_of_user(1000),
        Some(SessionStatus::ShutdownGracefully)
    );
    mgr.record_poll(1000, PollOutcome::Exited { success: false });
    assert_eq!(
        mgr.get_session_state_of_user(1000),
        Some(SessionStatus::ShutdownGracefully)
    );
}

#[test]
fn terminal_of_finished_session_is_reused() {
    let mut mgr = manager_on_tty(1);
    let a = mgr.start_session(Some(1000), SpawnOutcome::Spawned).unwrap();
    assert_eq!(a.tty_number, 0);
    mgr.record_poll(1000, PollOutcome::Exited { success: true });
    // Terminal 0 is no longer bound to a running session, so it is free again.
    let b = mgr.start_session(Some(1001), SpawnOutcome::Spawned).unwrap();
    assert_eq!(b.tty_number, 0);
}

#[test]
fn starting_again_for_a_user_supersedes_the_old_entry() {
    let mut mgr = manager_on_tty(1);
    mgr.start_session(Some(1000), SpawnOutcome::Spawned).unwrap();
    mgr.record_poll(1000, PollOutcome::Exited { success: false });
    assert!(mgr.has_crashed(1000));
    let r = mgr.start_session(Some(1000), SpawnOutcome::Spawned).unwrap();
    assert_eq!(r.user_id, 1000);
    assert!(mgr.is_running(1000));
    assert!(!mgr.has_crashed(1000));
}

#[test]
fn teardown_kills_only_running_sessions_and_warns_on_the_active_tty() {
    let t = teardown_actions(SessionStatus::Running, 3, 3);
    assert!(t.kill_process);
    assert!(t.warn_active_tty);
    let t = teardown_actions(SessionStatus::Running, 3, 2);
    assert!(t.kill_process);
    assert!(!t.warn_active_tty);
    let t = teardown_actions(SessionStatus::Crashed, 3, 3);
    assert!(!t.kill_process);
    assert!(!t.warn_active_tty);
    let t = teardown_actions(SessionStatus::ShutdownGracefully, 3, 3);
    assert!(!t.kill_process);
    assert!(!t.warn_active_tty);
}
