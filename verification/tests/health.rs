use peleka::config::HealthcheckConfig;
use peleka::deploy::health::healthcheck_command;
use peleka::deploy::{DeployErrorKind, HealthAction, HealthCheck, HealthEvent, HealthPoll};
use std::time::Duration;

fn hc(retries: u32, start_period: u64) -> HealthcheckConfig {
    HealthcheckConfig {
        cmd: "curl -f http://localhost/".to_string(),
        interval: Duration::from_secs(5),
        timeout: Duration::from_secs(3),
        retries,
        start_period: Duration::from_secs(start_period),
    }
}

fn failed_message(a: HealthAction) -> String {
    match a {
        HealthAction::Failed(e) => {
            assert_eq!(e.kind(), DeployErrorKind::HealthCheck);
            e.to_string()
        }
        other => panic!("expected failure, got {:?}", other),
    }
}

#[test]
fn command_runs_through_the_shell() {
    let cmd = healthcheck_command(&hc(3, 0));
    assert_eq!(cmd, vec!["sh", "-c", "curl -f http://localhost/"]);
}

#[test]
fn fails_after_retries_plus_one_failures() {
    let mut check = HealthCheck::new(&hc(2, 0), Duration::from_secs(60));
    assert!(!check.in_start_period);
    assert!(matches!(check.step(HealthEvent::Polled(HealthPoll::Unhealthy)), HealthAction::PollAfterInterval));
    assert!(matches!(check.step(HealthEvent::Polled(HealthPoll::Timeout)), HealthAction::PollAfterInterval));
    let m = failed_message(check.step(HealthEvent::Polled(HealthPoll::ExecFailed("no sh".to_string()))));
    assert_eq!(m, "health check failed: healthcheck exec failed: no sh");
}

#[test]
fn zero_retries_fail_on_first_failure() {
    let mut check = HealthCheck::new(&hc(0, 0), Duration::from_secs(60));
    let m = failed_message(check.step(HealthEvent::Polled(HealthPoll::Unhealthy)));
    assert_eq!(m, "health check failed: container reported unhealthy");
}

#[test]
fn start_period_failures_cost_no_retries() {
    let mut check = HealthCheck::new(&hc(0, 30), Duration::from_secs(60));
    assert!(check.in_start_period);
    for _ in 0..5 {
        assert!(matches!(check.step(HealthEvent::Polled(HealthPoll::Unhealthy)), HealthAction::PollAfterInterval));
    }
    assert_eq!(check.retries_remaining, 0);
    assert!(matches!(check.step(HealthEvent::WindowClosed), HealthAction::PollNow));
    assert!(!check.in_start_period);
    let m = failed_message(check.step(HealthEvent::Polled(HealthPoll::Timeout)));
    assert_eq!(m, "health check failed: healthcheck command timed out");
}

#[test]
fn healthy_ends_the_check_in_any_phase() {
    let mut check = HealthCheck::new(&hc(1, 10), Duration::from_secs(60));
    assert!(matches!(check.step(HealthEvent::Polled(HealthPoll::Healthy)), HealthAction::Healthy));
    let mut check = HealthCheck::new(&hc(1, 0), Duration::from_secs(60));
    check.step(HealthEvent::Polled(HealthPoll::Unhealthy));
    assert!(matches!(check.step(HealthEvent::Polled(HealthPoll::Healthy)), HealthAction::Healthy));
}

#[test]
fn running_out_of_time_is_a_timeout() {
    let mut check = HealthCheck::new(&hc(5, 0), Duration::from_secs(90));
    match check.step(HealthEvent::WindowClosed) {
        HealthAction::Failed(e) => {
            assert_eq!(e.kind(), DeployErrorKind::HealthCheckTimeout);
            assert_eq!(e.timeout_seconds(), Some(90));
        }
        other => panic!("expected timeout, got {:?}", other),
    }
}
