use peleka::deploy::container::{memory_size_fits, parse_memory_string, parse_port_mapping, parse_volume_mount};
use peleka::deploy::{DeployError, DeployErrorKind};
use peleka::error::Error;
use peleka::runtime::{DetectionError, Protocol, RuntimeError, RuntimeErrorKind, RuntimeInfoError};
use peleka::time::Timestamp;

#[test]
fn exit_codes_follow_the_documented_table() {
    assert_eq!(Error::Deploy(DeployError::lock_held("h".to_string(), 1, Timestamp { secs: 0, nanos: 0 })).exit_code(), 2);
    assert_eq!(Error::Deploy(DeployError::health_check_timeout(5)).exit_code(), 3);
    assert_eq!(Error::Deploy(DeployError::no_previous_deployment("a".to_string())).exit_code(), 4);
    assert_eq!(Error::Deploy(DeployError::image_pull_timeout(5)).exit_code(), 10);
    assert_eq!(Error::Deploy(DeployError::config_error("x".to_string())).exit_code(), 1);
    assert_eq!(Error::Ssh(peleka::ssh::Error::ChannelClosed).exit_code(), 5);
    assert_eq!(Error::ConfigNotFound(".".to_string()).exit_code(), 6);
    assert_eq!(Error::NoServers.exit_code(), 7);
    assert_eq!(Error::RuntimeDetection("x".to_string()).exit_code(), 8);
    assert_eq!(Error::Runtime(RuntimeError::from_detection(DetectionError::NoRuntimeFound)).exit_code(), 8);
    assert_eq!(Error::Runtime(RuntimeError::from_connection(RuntimeInfoError::ConnectionFailed("x".to_string()))).exit_code(), 9);
    assert_eq!(Error::Hook("pre-deploy hook failed".to_string()).exit_code(), 1);
}

#[test]
fn error_messages() {
    assert_eq!(Error::NoServers.to_string(), "no servers configured");
    assert_eq!(
        Error::Deploy(DeployError::health_check_timeout(60)).to_string(),
        "deployment failed: health check timed out after 60 seconds"
    );
    let e = RuntimeError::from_detection(DetectionError::NoRuntimeFound);
    assert_eq!(e.kind(), RuntimeErrorKind::NoRuntimeFound);
    assert_eq!(e.to_string(), "runtime detection failed: no container runtime found (checked Podman and Docker sockets)");
    let d = DeployError::lock_held("ci".to_string(), 7, Timestamp { secs: 1_705_312_800, nanos: 0 });
    assert_eq!(d.kind(), DeployErrorKind::LockHeld);
    assert_eq!(d.to_string(), "deployment locked by ci (pid 7) since 2024-01-15 10:00:00 UTC");
}

#[test]
fn volume_mounts() {
    let m = parse_volume_mount("/a:/b").unwrap();
    assert_eq!((m.source.as_str(), m.target.as_str(), m.read_only), ("/a", "/b", false));
    assert!(parse_volume_mount("/a:/b:ro").unwrap().read_only);
    assert!(!parse_volume_mount("/a:/b:rw").unwrap().read_only);
    assert!(parse_volume_mount("/a").is_none());
    assert!(parse_volume_mount("a:b:c:d").is_none());
}

#[test]
fn port_mappings() {
    let p = parse_port_mapping("8080:80").unwrap();
    assert_eq!((p.host_port, p.container_port, p.protocol), (Some(8080), 80, Protocol::Tcp));
    let p = parse_port_mapping("53/udp").unwrap();
    assert_eq!((p.host_port, p.container_port, p.protocol), (None, 53, Protocol::Udp));
    let p = parse_port_mapping("9000/sctp").unwrap();
    assert_eq!(p.protocol, Protocol::Tcp);
    assert!(parse_port_mapping("a:b").is_none());
    assert!(parse_port_mapping("1:2:3").is_none());
    assert!(parse_port_mapping("70000").is_none());
}

#[test]
fn memory_sizes() {
    assert_eq!(parse_memory_string("512m"), Some(512 * 1024 * 1024));
    assert_eq!(parse_memory_string("1G"), Some(1024 * 1024 * 1024));
    assert_eq!(parse_memory_string("64k"), Some(64 * 1024));
    assert_eq!(parse_memory_string("100"), Some(100));
    assert_eq!(parse_memory_string("lots"), None);
    assert!(memory_size_fits("16g"));
    assert!(!memory_size_fits("18446744073709551615k"));
}
