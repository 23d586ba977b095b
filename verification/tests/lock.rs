use peleka::deploy::lock::{LockAcquisition, LockAction, LockInfo};
use peleka::deploy::DeployErrorKind;
use peleka::ssh::{CommandOutput, Error as SshError};
use peleka::time::Timestamp;
use peleka::types::ServiceName;

fn now() -> Timestamp {
    let t = chrono::Utc::now();
    Timestamp { secs: t.timestamp(), nanos: t.timestamp_subsec_nanos() }
}

fn ok(code: u32) -> Result<CommandOutput, SshError> {
    Ok(CommandOutput { exit_code: code, stdout: String::new(), stderr: "denied".to_string() })
}

fn run(a: LockAction) -> String {
    match a {
        LockAction::Run(c) => c,
        _ => panic!("expected a command"),
    }
}

fn info(started_at: Timestamp) -> LockInfo {
    LockInfo { holder: "ci-1".to_string(), pid: 42, started_at, service: "myapp".to_string() }
}

#[test]
fn lock_info_creates_with_current_host_and_pid() {
    let service = ServiceName::new("test-service").unwrap();
    let info = LockInfo::new(&service, 4321);

    assert_eq!(info.service, "test-service");
    assert_eq!(info.pid, 4321);
    assert!(!info.holder.is_empty());
}

#[test]
fn lock_path_uses_service_name() {
    let service = ServiceName::new("myapp").unwrap();
    assert_eq!(
        LockInfo::lock_path(&service),
        "/tmp/peleka-deploy-myapp.lock"
    );
}

#[test]
fn fresh_lock_is_not_stale() {
    let service = ServiceName::new("test").unwrap();
    let info = LockInfo::new(&service, 1234);
    assert!(!info.is_stale());
}

#[test]
fn old_lock_is_stale() {
    let service = ServiceName::new("test").unwrap();
    let mut info = LockInfo::new(&service, 1234);
    let t = now();
    info.started_at = Timestamp { secs: t.secs - 2 * 3600, nanos: t.nanos };
    assert!(info.is_stale());
}

#[test]
fn lock_info_names_service_and_pid() {
    let service = ServiceName::new("test-service").unwrap();
    let info = LockInfo::new(&service, 77);
    assert_eq!(info.service, "test-service");
    assert_eq!(info.pid, 77);
    assert!(!info.holder.is_empty());
}

#[test]
fn staleness_starts_at_one_hour() {
    let t0 = Timestamp { secs: 1_700_000_000, nanos: 500 };
    let l = info(t0);
    assert!(!l.is_stale_at(Timestamp { secs: 1_700_003_599, nanos: 999_999_999 }));
    assert!(!l.is_stale_at(Timestamp { secs: 1_700_003_600, nanos: 499 }));
    assert!(l.is_stale_at(Timestamp { secs: 1_700_003_600, nanos: 500 }));
    assert!(!l.is_stale_at(Timestamp { secs: 1_600_000_000, nanos: 0 }));
}

#[test]
fn lock_info_path_is_inside_the_lock_directory() {
    let service = ServiceName::new("api").unwrap();
    assert_eq!(LockInfo::lock_info_path(&service), "/tmp/peleka-deploy-api.lock/info");
}

#[test]
fn free_lock_is_taken_and_written() {
    let service = ServiceName::new("myapp").unwrap();
    let (mut acq, first) = LockAcquisition::start(&service, "{\"holder\":\"o'brien\"}".to_string(), false);
    assert_eq!(first, "mkdir '/tmp/peleka-deploy-myapp.lock'");
    let write = run(acq.step(ok(0), None, now()));
    assert_eq!(
        write,
        "echo '{\"holder\":\"o'\\''brien\"}' > '/tmp/peleka-deploy-myapp.lock/info'"
    );
    match acq.step(ok(0), None, now()) {
        LockAction::Acquired(lock) => {
            assert_eq!(lock.release_command(), "rm -rf '/tmp/peleka-deploy-myapp.lock'")
        }
        _ => panic!("expected the lock"),
    }
}

#[test]
fn live_lock_of_someone_else_is_reported() {
    let service = ServiceName::new("myapp").unwrap();
    let (mut acq, _) = LockAcquisition::start(&service, "{}".to_string(), false);
    let t = now();
    let cat = run(acq.step(ok(1), None, t));
    assert_eq!(cat, "cat '/tmp/peleka-deploy-myapp.lock/info'");
    let again = run(acq.step(ok(0), Some(info(t)), t));
    assert_eq!(again, cat);
    match acq.step(ok(0), Some(info(t)), t) {
        LockAction::Failed(e) => {
            assert_eq!(e.kind(), DeployErrorKind::LockHeld);
            let h = e.lock_holder_info().unwrap();
            assert_eq!(h.holder, "ci-1");
            assert_eq!(h.pid, 42);
        }
        _ => panic!("expected lock held"),
    }
}

#[test]
fn stale_or_forced_lock_is_broken_and_retaken() {
    let service = ServiceName::new("myapp").unwrap();
    let t = now();
    let old = Timestamp { secs: t.secs - 7200, nanos: 0 };
    let (mut acq, _) = LockAcquisition::start(&service, "{}".to_string(), false);
    run(acq.step(ok(1), None, t));
    let rm = run(acq.step(ok(0), Some(info(old)), t));
    assert_eq!(rm, "rm -rf '/tmp/peleka-deploy-myapp.lock'");
    let mkdir = run(acq.step(ok(0), None, t));
    assert_eq!(mkdir, "mkdir '/tmp/peleka-deploy-myapp.lock'");
    match acq.step(ok(1), None, t) {
        LockAction::Failed(e) => assert_eq!(e.to_string(), "lock error: lock acquired by another process during break"),
        _ => panic!("expected a failure"),
    }

    let (mut acq, _) = LockAcquisition::start(&service, "{}".to_string(), true);
    run(acq.step(ok(1), None, t));
    let rm = run(acq.step(ok(0), Some(info(t)), t));
    assert!(rm.starts_with("rm -rf"));
}

#[test]
fn failed_write_is_a_lock_error() {
    let service = ServiceName::new("myapp").unwrap();
    let (mut acq, _) = LockAcquisition::start(&service, "{}".to_string(), false);
    run(acq.step(ok(0), None, now()));
    match acq.step(ok(1), None, now()) {
        LockAction::Failed(e) => {
            assert_eq!(e.kind(), DeployErrorKind::Lock);
        }
        _ => panic!("expected a failure"),
    }
}
