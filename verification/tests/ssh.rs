use peleka::ssh::session::{
    agent_keys_check, connection_error, default_key_paths, forward_socket_path, host_key_decision,
};
use peleka::ssh::{ChannelEvent, CommandCollector, Error, KnownHostCheck, Relay, RelayAction, RelayEvent, SessionConfig};
use std::time::Duration;

#[test]
fn session_config_builder() {
    let c = SessionConfig::new("h".to_string(), "u".to_string());
    assert_eq!(c.port, 22);
    assert_eq!(c.command_timeout, Duration::from_secs(300));
    assert!(!c.trust_on_first_use);
    let c = c.port(2200).trust_on_first_use(true).key_path("/k".to_string());
    assert_eq!(c.port, 2200);
    assert!(c.trust_on_first_use);
    assert_eq!(c.key_path.as_deref(), Some("/k"));
}

#[test]
fn host_keys() {
    assert_eq!(host_key_decision(KnownHostCheck::Known, false), (true, false));
    assert_eq!(host_key_decision(KnownHostCheck::Unknown, false), (false, false));
    assert_eq!(host_key_decision(KnownHostCheck::Unknown, true), (true, true));
    assert_eq!(host_key_decision(KnownHostCheck::Changed, true), (false, false));
    assert_eq!(host_key_decision(KnownHostCheck::Failed, true), (true, false));
}

#[test]
fn connection_and_auth_errors() {
    let e = connection_error("Connection refused (os error 111)", "app", 22);
    assert_eq!(e.to_string(), "connection failed: connection refused to app:22");
    let e = connection_error("timeout", "app", 22);
    assert_eq!(e.to_string(), "connection failed: timeout");
    assert_eq!(default_key_paths("/home/u")[0], "/home/u/.ssh/id_ed25519");
    assert!(agent_keys_check(Ok(1)).is_ok());
    assert_eq!(agent_keys_check(Ok(0)).unwrap_err().to_string(), "SSH agent not available: no keys in SSH agent");
}

#[test]
fn command_output_is_collected_in_order() {
    let mut c = CommandCollector::new();
    assert!(!c.take(ChannelEvent::Data(b"he".to_vec())));
    assert!(!c.take(ChannelEvent::ExtendedData(b"warn".to_vec(), 1)));
    assert!(!c.take(ChannelEvent::ExtendedData(b"ignored".to_vec(), 2)));
    assert!(!c.take(ChannelEvent::Data(b"llo".to_vec())));
    assert!(!c.take(ChannelEvent::ExitStatus(3)));
    assert!(c.take(ChannelEvent::Eof));
    let out = c.finish().unwrap();
    assert_eq!(out.stdout, "hello");
    assert_eq!(out.stderr, "warn");
    assert_eq!(out.exit_code, 3);
    assert!(!out.success());
}

#[test]
fn channel_closed_without_status_is_an_error() {
    let mut c = CommandCollector::new();
    c.take(ChannelEvent::Data(b"x".to_vec()));
    assert!(c.take(ChannelEvent::Close));
    assert!(matches!(c.finish(), Err(Error::ChannelClosed)));
}

#[test]
fn relay_stops_when_both_sides_end() {
    let mut r = Relay::new();
    assert_eq!(r.step(RelayEvent::LocalRead(Ok(10))), RelayAction::SendData);
    assert_eq!(r.step(RelayEvent::RemoteData), RelayAction::WriteLocal);
    assert_eq!(r.step(RelayEvent::LocalRead(Ok(0))), RelayAction::SendEof);
    assert!(!r.finished());
    assert_eq!(r.step(RelayEvent::RemoteEof), RelayAction::Stop);
    assert!(r.finished());
    let mut r = Relay::new();
    assert_eq!(r.step(RelayEvent::RemoteEof), RelayAction::Continue);
    assert_eq!(r.step(RelayEvent::LocalRead(Err("reset".to_string()))), RelayAction::Stop);
    assert_eq!(forward_socket_path(12, 3), "/tmp/peleka-12-3.sock");
}
