use peleka::runtime::detection::{file_exists_command, Detect, RuntimeDetection};
use peleka::runtime::{default_socket_path, DetectionError, RuntimeConfig, RuntimeType};
use peleka::ssh::{CommandOutput, Error as SshError};

fn out(code: u32, stdout: &str) -> Result<CommandOutput, SshError> {
    Ok(CommandOutput { exit_code: code, stdout: stdout.to_string(), stderr: String::new() })
}

#[test]
fn default_docker_socket() {
    assert_eq!(
        default_socket_path(RuntimeType::Docker),
        "/var/run/docker.sock"
    );
}

#[test]
fn default_podman_socket() {
    assert_eq!(
        default_socket_path(RuntimeType::Podman),
        "/run/podman/podman.sock"
    );
}

fn expect_run(d: Detect) -> String {
    match d {
        Detect::Run(c) => c,
        Detect::Done(_) => panic!("expected a command"),
    }
}

#[test]
fn configured_runtime_needs_no_detection() {
    let cfg = RuntimeConfig { runtime: Some(RuntimeType::Podman), socket: None };
    let (_, d) = RuntimeDetection::start(Some(&cfg));
    match d {
        Detect::Done(Ok(info)) => {
            assert_eq!(info.runtime_type, RuntimeType::Podman);
            assert_eq!(info.socket_path, "/run/podman/podman.sock");
        }
        _ => panic!("expected a result"),
    }
    let cfg = RuntimeConfig { runtime: Some(RuntimeType::Docker), socket: Some("/tmp/d.sock".to_string()) };
    match RuntimeDetection::start(Some(&cfg)).1 {
        Detect::Done(Ok(info)) => assert_eq!(info.socket_path, "/tmp/d.sock"),
        _ => panic!("expected a result"),
    }
}

#[test]
fn rootless_podman_is_tried_first() {
    let (mut det, d) = RuntimeDetection::start(None);
    assert_eq!(expect_run(d), "id -u");
    let d = det.step(out(0, "1000\n"));
    assert_eq!(expect_run(d), "test -e /run/user/1000/podman/podman.sock && echo exists");
    match det.step(out(0, "exists\n")) {
        Detect::Done(Ok(info)) => {
            assert_eq!(info.runtime_type, RuntimeType::Podman);
            assert_eq!(info.socket_path, "/run/user/1000/podman/podman.sock");
        }
        _ => panic!("expected podman"),
    }
}

#[test]
fn docker_is_found_last_and_nothing_is_an_error() {
    let (mut det, _) = RuntimeDetection::start(None);
    let d = det.step(out(1, ""));
    assert_eq!(expect_run(d), file_exists_command("/run/podman/podman.sock"));
    let d = det.step(out(1, ""));
    assert_eq!(expect_run(d), "test -e /var/run/docker.sock && echo exists");
    match det.step(out(0, "exists")) {
        Detect::Done(Ok(info)) => assert_eq!(info.runtime_type, RuntimeType::Docker),
        _ => panic!("expected docker"),
    }
    let (mut det, _) = RuntimeDetection::start(None);
    det.step(out(1, ""));
    det.step(out(0, "no"));
    match det.step(out(0, "")) {
        Detect::Done(Err(DetectionError::NoRuntimeFound)) => {}
        _ => panic!("expected no runtime"),
    }
}

#[test]
fn ssh_failure_ends_detection() {
    let (mut det, _) = RuntimeDetection::start(None);
    match det.step(Err(SshError::ChannelClosed)) {
        Detect::Done(Err(DetectionError::Ssh(SshError::ChannelClosed))) => {}
        _ => panic!("expected the ssh error"),
    }
}
