use peleka::runtime::api_error::{
    map_container_create_error, map_container_start_error, map_exec_create_error,
    map_image_pull_error, map_image_remove_error, map_network_disconnect_error,
};
use peleka::runtime::bollard::{
    container_info_from, create_request, detached_exec_poll, healthcheck_outcome, libpod_pull_outcome,
    libpod_pull_path, list_filters, list_should_retry, rootful_podman_found, rootless_podman_socket,
    summary_from, RawDetails, RawEndpoint, RawSummary, RestartName,
};
use peleka::runtime::{
    ApiError, ContainerConfig, ContainerError, ContainerFilters, ContainerState, ExecError, ExecInfo,
    ExecResult, HealthState, ImageError, NetworkError, PortMapping, Protocol, RestartPolicyConfig,
    VolumeMount,
};
use peleka::ssh::CommandOutput;
use peleka::strmap::StrMap;
use peleka::types::{ContainerId, ImageRef, ServiceName};
use std::time::Duration;

fn server_error(code: u16, message: &str) -> ApiError {
    ApiError {
        status: Some(code),
        message: message.to_string(),
        text: format!("Docker responded with status code {}: {}", code, message),
    }
}

#[test]
fn api_errors_map_by_status() {
    assert!(matches!(map_container_create_error(&server_error(404, "no image")), ContainerError::ImageNotFound(m) if m == "no image"));
    assert!(matches!(map_container_create_error(&server_error(409, "taken")), ContainerError::AlreadyExists(m) if m == "taken"));
    assert!(matches!(map_container_create_error(&server_error(500, "x")), ContainerError::Runtime(m) if m == "Docker responded with status code 500: x"));
    assert!(matches!(map_container_start_error(&server_error(304, "up")), ContainerError::AlreadyRunning(_)));
    assert!(matches!(map_network_disconnect_error(&server_error(403, "no")), NetworkError::NotConnected(_)));
    assert!(matches!(map_exec_create_error(&server_error(409, "stopped")), ExecError::ContainerNotRunning(_)));
    assert!(matches!(map_image_remove_error(&server_error(404, "x"), "nginx:1"), ImageError::NotFound(m) if m == "nginx:1"));
    let io = ApiError { status: None, message: String::new(), text: "io".to_string() };
    assert!(matches!(map_image_pull_error(&io, "a:b"), ImageError::PullFailed(m) if m == "a:b: io"));
}

fn base_config() -> ContainerConfig {
    let mut env = StrMap::new();
    env.insert("A".to_string(), "1".to_string());
    ContainerConfig {
        name: "web-blue".to_string(),
        image: ImageRef::parse("nginx:1.25").unwrap(),
        env,
        labels: StrMap::new(),
        ports: vec![
            PortMapping { host_port: Some(8080), container_port: 80, protocol: Protocol::Tcp, host_ip: None },
            PortMapping { host_port: None, container_port: 53, protocol: Protocol::Udp, host_ip: None },
        ],
        volumes: vec![VolumeMount { source: "/d".to_string(), target: "/data".to_string(), read_only: true }],
        command: None,
        entrypoint: None,
        working_dir: None,
        user: None,
        restart_policy: RestartPolicyConfig::OnFailure { max_retries: Some(4) },
        resources: None,
        healthcheck: None,
        stop_timeout: Some(Duration::from_secs(10)),
        network: Some("peleka".to_string()),
        network_aliases: vec![ServiceName::new("web").unwrap().as_alias()],
    }
}

#[test]
fn creation_request_from_container_config() {
    let r = create_request(&base_config());
    assert_eq!(r.name, "web-blue");
    assert_eq!(r.image, "nginx:1.25");
    assert_eq!(r.env, Some(vec!["A=1".to_string()]));
    assert!(r.labels.is_none());
    assert_eq!(r.restart_name, RestartName::OnFailure);
    assert_eq!(r.restart_max_retries, Some(4));
    assert_eq!(r.exposed_ports, Some(vec!["80/tcp".to_string(), "53/udp".to_string()]));
    let b = r.port_bindings.unwrap();
    assert_eq!(b.len(), 1);
    assert_eq!(b.get("80/tcp").unwrap().host_port, "8080");
    assert_eq!(r.network_mode.as_deref(), Some("peleka"));
    let (net, aliases) = r.endpoint.unwrap();
    assert_eq!(net, "peleka");
    assert_eq!(aliases, vec!["web".to_string()]);
    assert_eq!(r.mounts.unwrap().len(), 1);
    assert_eq!(r.stop_timeout, Some(Duration::from_secs(10)));
}

#[test]
fn empty_lists_are_left_out_of_the_request() {
    let mut c = base_config();
    c.env = StrMap::new();
    c.ports = vec![];
    c.volumes = vec![];
    c.network = None;
    let r = create_request(&c);
    assert!(r.env.is_none() && r.exposed_ports.is_none() && r.port_bindings.is_none());
    assert!(r.mounts.is_none() && r.endpoint.is_none() && r.network_mode.is_none());
}

#[test]
fn libpod_pull() {
    assert_eq!(
        libpod_pull_path("docker.io/library/nginx:latest"),
        "/v4.0.0/libpod/images/pull?reference=docker.io%2Flibrary%2Fnginx%3Alatest&tlsVerify=false"
    );
    assert!(libpod_pull_outcome("a", true, "{\"status\":\"ok\",\"error\":null}").is_ok());
    assert!(matches!(libpod_pull_outcome("a", true, "{\"error\":\"denied\"}"), Err(ImageError::PullFailed(m)) if m == "a: {\"error\":\"denied\"}"));
    assert!(matches!(libpod_pull_outcome("a", false, "nope"), Err(ImageError::PullFailed(m)) if m == "a: libpod API error: nope"));
}

#[test]
fn podman_socket_over_ssh() {
    let found = Ok(CommandOutput { exit_code: 0, stdout: "exists\n".to_string(), stderr: String::new() });
    assert!(rootful_podman_found(&found));
    let not = Ok(CommandOutput { exit_code: 1, stdout: String::new(), stderr: String::new() });
    assert!(!rootful_podman_found(&not));
    let uid = Ok(CommandOutput { exit_code: 0, stdout: " 1001\n".to_string(), stderr: String::new() });
    assert_eq!(rootless_podman_socket(uid).unwrap(), "/run/user/1001/podman/podman.sock");
}

#[test]
fn health_and_detached_exec() {
    let ok = ExecResult { exit_code: 0, stdout: vec![], stderr: vec![] };
    assert_eq!(healthcheck_outcome(Ok(ok)).unwrap(), true);
    let bad = ExecResult { exit_code: 1, stdout: vec![], stderr: vec![] };
    assert_eq!(healthcheck_outcome(Ok(bad)).unwrap(), false);
    assert!(matches!(healthcheck_outcome(Err(ExecError::Failed("x".to_string()))), Err(ContainerError::Runtime(m)) if m == "healthcheck exec failed: exec failed: x"));
    let info = ExecInfo { id: "e".to_string(), running: false, exit_code: None, container_id: ContainerId::new("c".to_string()) };
    assert_eq!(detached_exec_poll(&info, false).unwrap().unwrap().exit_code, 0);
    let info = ExecInfo { id: "e".to_string(), running: true, exit_code: None, container_id: ContainerId::new("c".to_string()) };
    assert!(detached_exec_poll(&info, false).is_none());
    assert!(detached_exec_poll(&info, true).unwrap().is_err());
}

#[test]
fn listing_filters_and_summaries() {
    let service = ServiceName::new("web").unwrap();
    let f = list_filters(&ContainerFilters::for_service(&service, true));
    let labels = f.get("label").unwrap();
    assert_eq!(labels.len(), 2);
    assert!(labels.contains(&"peleka.service=web".to_string()));
    assert!(labels.contains(&"peleka.managed=true".to_string()));
    assert!(!f.contains_key("name"));
    assert!(list_should_retry("unknown variant `stopping`, expected one of", 0));
    assert!(!list_should_retry("unknown variant `stopping`", 2));
    assert!(!list_should_retry("connection refused", 0));
    let s = summary_from(RawSummary {
        id: Some("abc".to_string()),
        names: Some(vec!["//web-blue".to_string()]),
        image: None,
        state: Some("RUNNING".to_string()),
        status: Some("Up 2 minutes".to_string()),
        labels: None,
    });
    assert_eq!(s.id.as_str(), "abc");
    assert_eq!(s.name, "web-blue");
    assert_eq!(s.state, "running");
    assert_eq!(s.image, "");
}

#[test]
fn inspected_container() {
    let mut networks = StrMap::new();
    networks.insert(
        "peleka".to_string(),
        RawEndpoint { network_id: Some("n1".to_string()), ip_address: None, gateway: None, aliases: Some(vec!["web".to_string()]) },
    );
    let info = container_info_from(
        ContainerId::new("c1".to_string()),
        RawDetails {
            name: Some("/web-green".to_string()),
            image: Some("web:2".to_string()),
            state: Some("paused".to_string()),
            health: Some("healthy".to_string()),
            created: None,
            labels: None,
            networks: Some(networks),
        },
    );
    assert_eq!(info.name, "web-green");
    assert_eq!(info.state, ContainerState::Paused);
    assert_eq!(info.health, Some(HealthState::Healthy));
    let n = info.network_settings.networks.get("peleka").unwrap();
    assert_eq!(n.network_id, "n1");
    assert_eq!(n.ip_address, "");
    assert_eq!(n.aliases, vec!["web".to_string()]);
    let other = container_info_from(
        ContainerId::new("c2".to_string()),
        RawDetails { name: None, image: None, state: Some("".to_string()), health: Some("none".to_string()), created: None, labels: None, networks: None },
    );
    assert_eq!(other.state, ContainerState::Exited);
    assert_eq!(other.health, Some(HealthState::NotReported));
}
