use peleka::deploy::plan::{command_container, command_exit, existing_container, known_containers};
use peleka::deploy::{active_stopped, plan_rollback, previous_connected, previous_started, DeployErrorKind};
use peleka::runtime::{ContainerError, ContainerSummary, NetworkError};
use peleka::strmap::StrMap;
use peleka::types::{ContainerId, ServiceName};

fn summary(id: &str, state: &str) -> ContainerSummary {
    ContainerSummary {
        id: ContainerId::new(id.to_string()),
        name: id.to_string(),
        image: "app:1".to_string(),
        state: state.to_string(),
        status: String::new(),
        labels: StrMap::new(),
    }
}

#[test]
fn manual_rollback_exists() {
    let service = ServiceName::new("app").unwrap();
    let plan = plan_rollback(&service, Ok(vec![summary("r1", "running"), summary("s1", "exited")]));
    assert!(plan.is_ok());
    assert!(previous_started(Ok(())).is_ok());
    assert!(previous_connected(Ok(())).is_ok());
    assert!(active_stopped(Ok(())).is_ok());
}

#[test]
fn rollback_swaps_running_and_stopped() {
    let service = ServiceName::new("app").unwrap();
    let listed = vec![summary("s1", "exited"), summary("r1", "running"), summary("s2", "exited")];
    let plan = plan_rollback(&service, Ok(listed)).unwrap();
    assert_eq!(plan.active.as_str(), "r1");
    assert_eq!(plan.previous.as_str(), "s1");
    assert_eq!(plan.alias.as_str(), "app");
}

#[test]
fn rollback_needs_a_running_and_a_previous_container() {
    let service = ServiceName::new("app").unwrap();
    let e = plan_rollback(&service, Ok(vec![summary("s", "exited")])).unwrap_err();
    assert_eq!(e.kind(), DeployErrorKind::Rollback);
    assert_eq!(e.to_string(), "rollback failed: no running container found for service");
    let e = plan_rollback(&service, Ok(vec![summary("r", "running")])).unwrap_err();
    assert_eq!(e.kind(), DeployErrorKind::NoPreviousDeployment);
    assert_eq!(e.service_name(), Some("app"));
    let e = plan_rollback(&service, Err(ContainerError::Runtime("gone".to_string()))).unwrap_err();
    assert_eq!(e.to_string(), "rollback failed: failed to list containers: runtime error: gone");
}

#[test]
fn rollback_steps() {
    assert!(previous_started(Ok(())).is_ok());
    let e = previous_started(Err(ContainerError::NotFound("x".to_string()))).unwrap_err();
    assert_eq!(e.to_string(), "rollback failed: failed to start previous container: container not found: x");
    assert!(previous_connected(Err(NetworkError::Runtime("container already connected to network".to_string()))).is_ok());
    assert!(previous_connected(Err(NetworkError::Runtime("ALREADY EXISTS".to_string()))).is_ok());
    assert!(previous_connected(Err(NetworkError::NotFound("n".to_string()))).is_err());
    assert!(active_stopped(Err(ContainerError::Runtime("t".to_string()))).is_err());
    assert!(active_stopped(Ok(())).is_ok());
}

#[test]
fn existing_container_is_the_first_listed() {
    let found = existing_container(Ok(vec![summary("a", "running"), summary("b", "running")])).unwrap();
    assert_eq!(found.unwrap().as_str(), "a");
    assert!(existing_container(Ok(vec![])).unwrap().is_none());
    let e = existing_container(Err(ContainerError::Runtime("x".to_string()))).unwrap_err();
    assert_eq!(e.kind(), DeployErrorKind::Config);
    let k = known_containers(&ContainerId::new("n".to_string()), Some(ContainerId::new("o".to_string())));
    assert_eq!(k.len(), 2);
}

#[test]
fn exec_command_outcomes() {
    assert!(command_container(None).is_err());
    assert!(command_exit(0).is_ok());
    assert_eq!(
        command_exit(-1).unwrap_err().to_string(),
        "configuration error: command exited with code -1"
    );
    assert_eq!(
        command_exit(2).unwrap_err().to_string(),
        "configuration error: command exited with code 2"
    );
}
