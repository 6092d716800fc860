use dark_pattern_blocker::session::{shutdown_refusal, ActiveSession, IdleSession, Session};

#[test]
fn app_state_reflects_session_state() {
    let idle = Session::Idle(IdleSession::new());
    assert!(!idle.is_active());

    let active = Session::Active(ActiveSession::new_for_test(60, 1_000));
    assert!(active.is_active());
    assert!(active.remaining_secs(2_000) > 50);
}

#[test]
fn remaining_time_counts_down_to_zero() {
    let a = IdleSession::new().start(10, 5_000);
    assert_eq!(a.remaining_ms(5_000), 10_000);
    assert_eq!(a.remaining_ms(9_500), 5_500);
    assert_eq!(a.remaining_secs(9_500), 5);
    assert_eq!(a.remaining_ms(15_000), 0);
    assert_eq!(a.remaining_ms(99_000), 0);
    // A clock reading before the start counts as no time elapsed.
    assert_eq!(a.remaining_ms(1_000), 10_000);
    assert_eq!(Session::Idle(a.stop()).remaining_ms(6_000), 0);
}

#[test]
fn very_long_session_does_not_overflow() {
    let a = ActiveSession::new_for_test(u64::MAX, 0);
    assert_eq!(a.remaining_secs(0), u64::MAX);
    assert_eq!(a.remaining_ms(0), (u64::MAX as u128) * 1000);
}

#[test]
fn shutdown_waits_for_session_to_end() {
    assert_eq!(shutdown_refusal(&Session::Idle(IdleSession::new())), None);
    let running = Session::Active(ActiveSession { started_at_ms: 0, duration_secs: 60 });
    assert_eq!(
        shutdown_refusal(&running),
        Some("Session is active. Shutdown blocked. Wait for session to end.".to_string())
    );
}
