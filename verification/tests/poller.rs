use openhome::reconnect::{
    ReconnectAction, ReconnectEvent, ReconnectLoop, ReconnectMonitor, HEALTH_CHECK_SECONDS,
    RETRY_DELAYS_SECONDS, STARTUP_GRACE_SECONDS,
};

#[test]
fn reconnect_backoff_is_bounded_and_progressive() {
    assert_eq!(RETRY_DELAYS_SECONDS, [2, 5, 10, 30, 60]);
}

#[test]
fn monitor_walks_the_backoff_and_stays_at_a_minute() {
    assert_eq!(STARTUP_GRACE_SECONDS, 3);
    assert_eq!(HEALTH_CHECK_SECONDS, 60);
    let mut m = ReconnectMonitor::new();
    let mut delays = Vec::new();
    for _ in 0..7 {
        let plan = m.on_failure(false, "could not connect");
        delays.push(plan.delay_seconds);
        m.after_wait(false);
    }
    assert_eq!(delays, vec![2, 5, 10, 30, 60, 60, 60]);
}

#[test]
fn repeated_failure_at_the_last_step_is_logged_once() {
    let mut m = ReconnectMonitor::new();
    for _ in 0..4 {
        assert!(m.on_failure(false, "down").log);
        m.after_wait(false);
    }
    assert!(m.on_failure(false, "down").log);
    m.after_wait(false);
    assert!(!m.on_failure(false, "down").log);
    m.after_wait(false);
    assert!(m.on_failure(false, "still down").log);
    m.after_wait(false);
    assert!(m.on_failure(true, "still down").log);
}

#[test]
fn reconnect_request_and_success_restart_the_backoff() {
    let mut m = ReconnectMonitor::new();
    m.on_failure(false, "down");
    m.after_wait(false);
    m.on_failure(false, "down");
    m.after_wait(true);
    assert_eq!(m.on_failure(false, "down").delay_seconds, 2);
    m.after_wait(false);
    m.on_success();
    let plan = m.on_failure(false, "down");
    assert_eq!(plan.delay_seconds, 2);
    assert!(plan.log);
}

#[test]
fn reconnect_loop_waits_checks_and_backs_off() {
    let failed = |m: &str| ReconnectEvent::Failed { message: m.to_string(), was_online: false };
    let (mut l, action) = ReconnectLoop::new();
    assert_eq!(action, ReconnectAction::ReadSettings { mark_offline: false });
    assert_eq!(l.step(ReconnectEvent::SettingsLoaded(false)), ReconnectAction::AwaitRequest);
    assert_eq!(l.step(ReconnectEvent::SettingsLoaded(true)), ReconnectAction::Grace { seconds: 3 });
    assert_eq!(l.step(ReconnectEvent::WaitEnded(false)), ReconnectAction::ReadSettings { mark_offline: false });
    let mut retries = Vec::new();
    for _ in 0..6 {
        assert_eq!(l.step(ReconnectEvent::SettingsLoaded(true)), ReconnectAction::Refresh);
        match l.step(failed("down")) {
            ReconnectAction::Retry { seconds, log } => retries.push((seconds, log)),
            other => panic!("unexpected {other:?}"),
        }
        assert!(l.expects(&ReconnectEvent::WaitEnded(false)));
        assert!(!l.expects(&ReconnectEvent::Reached));
        assert_eq!(l.step(ReconnectEvent::WaitEnded(false)), ReconnectAction::ReadSettings { mark_offline: false });
    }
    assert_eq!(
        retries,
        vec![(2, true), (5, true), (10, true), (30, true), (60, true), (60, false)]
    );
    assert_eq!(l.step(ReconnectEvent::SettingsLoaded(true)), ReconnectAction::Refresh);
    assert_eq!(l.step(ReconnectEvent::Reached), ReconnectAction::StayHealthy { seconds: 60 });
    assert_eq!(l.step(ReconnectEvent::WaitEnded(true)), ReconnectAction::ReadSettings { mark_offline: true });
    assert_eq!(l.step(ReconnectEvent::SettingsLoaded(true)), ReconnectAction::Refresh);
    assert_eq!(l.step(failed("down")), ReconnectAction::Retry { seconds: 2, log: true });
    assert_eq!(l.step(ReconnectEvent::WaitEnded(true)), ReconnectAction::ReadSettings { mark_offline: false });
    assert_eq!(l.step(ReconnectEvent::SettingsLoaded(true)), ReconnectAction::Refresh);
    assert_eq!(l.step(failed("down")), ReconnectAction::Retry { seconds: 2, log: true });
}
