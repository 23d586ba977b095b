use peleka::config::{Config, PullPolicy, StopConfig};
use peleka::deploy::{
    plan_deployment, DeployErrorKind, DeployStrategy, Deployment, PullOutcome,
};
use peleka::runtime::{ContainerError, ImageError, NetworkError, RestartPolicyConfig};
use peleka::strmap::StrMap;
use peleka::types::{ContainerId, NetworkId};
use std::time::Duration;

fn cid(s: &str) -> ContainerId {
    ContainerId::new(s.to_string())
}

#[test]
fn first_deployment_goes_to_blue_and_update_to_green() {
    let d = Deployment::new(Config::template());
    assert_eq!(d.container_name(), "my-app-blue");
    assert!(d.old_container().is_none());
    let d = Deployment::new_update(Config::template(), cid("old"));
    assert_eq!(d.container_name(), "my-app-green");
    assert_eq!(d.old_container().unwrap().as_str(), "old");
}

#[test]
fn network_is_ensured() {
    let d = Deployment::new(Config::template());
    let net = d.network_config();
    assert_eq!(net.name, "peleka");
    assert_eq!(net.driver.as_deref(), Some("bridge"));
    let id = d.ensure_network(Ok(true), None).unwrap();
    assert_eq!(id.as_str(), "peleka");
    assert!(d.ensure_network(Ok(false), Some(Ok(NetworkId::new("x".to_string())))).is_ok());
    assert!(d
        .ensure_network(Ok(false), Some(Err(NetworkError::AlreadyExists("peleka".to_string()))))
        .is_ok());
    let e = d
        .ensure_network(Err(NetworkError::Runtime("down".to_string())), Some(Err(NetworkError::Runtime("boom".to_string()))))
        .unwrap_err();
    assert_eq!(e.kind(), DeployErrorKind::NetworkCreation);
    assert_eq!(e.to_string(), "failed to create network: runtime error: boom");
}

#[test]
fn pull_outcomes() {
    let d = Deployment::new(Config::template());
    assert!(d.needs_pull());
    assert!(d.pull_image(Some(PullOutcome::Pulled)).is_ok());

    let d = Deployment::new(Config::template());
    let e = d.pull_image(Some(PullOutcome::Failed(ImageError::NotFound("x".to_string())))).unwrap_err();
    assert_eq!(e.kind(), DeployErrorKind::ImagePull);

    let mut config = Config::template();
    config.image_pull_timeout = Some(Duration::from_secs(45));
    let e = Deployment::new(config).pull_image(Some(PullOutcome::TimedOut)).unwrap_err();
    assert_eq!(e.kind(), DeployErrorKind::ImagePullTimeout);
    assert_eq!(e.to_string(), "image pull timed out after 45 seconds");

    let mut config = Config::template();
    config.pull_policy = PullPolicy::Never;
    let d = Deployment::new(config);
    assert!(!d.needs_pull());
    assert!(d.pull_image(None).is_ok());
}

#[test]
fn full_blue_green_run() {
    let d = Deployment::new_update(Config::template(), cid("old"));
    let d = d.pull_image(Some(PullOutcome::Pulled)).unwrap();
    let d = d.start_container(Ok(cid("new")), Some(Ok(()))).unwrap();
    assert_eq!(d.new_container().as_str(), "new");
    let d = d.healthy();
    let d = d
        .cutover(Err(NetworkError::Runtime("endpoint with name x already exists in network".to_string())))
        .unwrap();
    assert_eq!(d.grace_period(), Duration::from_secs(30));
    let d = d.cleanup(Some(Ok(()))).unwrap();
    assert_eq!(d.deployed_container().as_str(), "new");
    assert_eq!(d.finish().service.as_str(), "my-app");
}

#[test]
fn failures_along_the_way() {
    let d = Deployment::new(Config::template()).pull_image(Some(PullOutcome::Pulled)).unwrap();
    let e = d.start_container(Err(ContainerError::AlreadyExists("n".to_string())), None).unwrap_err();
    assert_eq!(e.kind(), DeployErrorKind::ContainerCreate);

    let d = Deployment::new(Config::template()).pull_image(Some(PullOutcome::Pulled)).unwrap();
    let e = d
        .start_container(Ok(cid("c")), Some(Err(ContainerError::Runtime("oom".to_string()))))
        .unwrap_err();
    assert_eq!(e.kind(), DeployErrorKind::ContainerStart);
    assert_eq!(e.to_string(), "failed to start container: runtime error: oom");

    let d = Deployment::new(Config::template()).pull_image(Some(PullOutcome::Pulled)).unwrap();
    let d = d.start_container(Ok(cid("c")), Some(Ok(()))).unwrap().healthy();
    let e = d.cutover(Err(NetworkError::NotFound("peleka".to_string()))).unwrap_err();
    assert_eq!(e.kind(), DeployErrorKind::Network);

    let d = Deployment::new_update(Config::template(), cid("o")).pull_image(Some(PullOutcome::Pulled)).unwrap();
    let d = d.start_container(Ok(cid("c")), Some(Ok(()))).unwrap();
    let back = d.rollback(Ok(())).unwrap();
    assert_eq!(back.old_container().unwrap().as_str(), "o");
}

#[test]
fn stop_failure_of_old_container_fails_cleanup() {
    let mut config = Config::template();
    config.stop = Some(StopConfig { timeout: Duration::from_secs(5), signal: "SIGTERM".to_string() });
    let d = Deployment::new_update(config, cid("old")).pull_image(Some(PullOutcome::Pulled)).unwrap();
    let d = d.start_container(Ok(cid("n")), Some(Ok(()))).unwrap().healthy().cutover(Ok(())).unwrap();
    assert_eq!(d.stop_timeout(), Duration::from_secs(5));
    let e = d.cleanup(Some(Err(ContainerError::NotRunning("old".to_string())))).unwrap_err();
    assert_eq!(e.kind(), DeployErrorKind::ContainerStop);
}

#[test]
fn container_config_for_a_deployment() {
    let mut config = Config::template();
    config.ports = vec!["8080:80".to_string(), "bad:port:spec:x".to_string(), "53/udp".to_string()];
    config.volumes = vec!["/data:/var/lib/data:ro".to_string(), "oops".to_string()];
    config.labels.insert("team".to_string(), "core".to_string());
    let d = Deployment::new_update(config, cid("old")).pull_image(Some(PullOutcome::Pulled)).unwrap();
    let cc = d.build_container_config(&StrMap::new()).unwrap();
    assert_eq!(cc.name, "my-app-green");
    assert_eq!(cc.labels.get("peleka.service"), Some(&"my-app".to_string()));
    assert_eq!(cc.labels.get("peleka.managed"), Some(&"true".to_string()));
    assert_eq!(cc.labels.get("peleka.slot"), Some(&"green".to_string()));
    assert_eq!(cc.labels.get("team"), Some(&"core".to_string()));
    assert_eq!(cc.ports.len(), 2);
    assert_eq!(cc.ports[0].host_port, Some(8080));
    assert_eq!(cc.ports[0].container_port, 80);
    assert_eq!(cc.ports[1].host_port, None);
    assert_eq!(cc.volumes.len(), 1);
    assert!(cc.volumes[0].read_only);
    assert_eq!(cc.network, None);
    assert_eq!(cc.network_aliases.len(), 1);
    assert_eq!(cc.network_aliases[0].as_str(), "my-app");
    assert_eq!(cc.restart_policy, RestartPolicyConfig::UnlessStopped);
}

#[test]
fn missing_environment_variable_fails_the_container_config() {
    let mut config = Config::template();
    config.env.insert(
        "DB".to_string(),
        peleka::config::EnvValue::FromEnv { var: "DB_URL".to_string(), default: None },
    );
    let d = Deployment::new(config).pull_image(Some(PullOutcome::Pulled)).unwrap();
    let e = d.build_container_config(&StrMap::new()).unwrap_err();
    assert_eq!(e.kind(), DeployErrorKind::Config);
    let mut environment = StrMap::new();
    environment.insert("DB_URL".to_string(), "postgres://db".to_string());
    let cc = d.build_container_config(&environment).unwrap();
    assert_eq!(cc.env.get("DB"), Some(&"postgres://db".to_string()));
}

#[test]
fn recreate_stops_the_old_container_first() {
    let plan = plan_deployment(Config::template(), DeployStrategy::Recreate, Some(cid("old")));
    assert!(plan.deployment.old_container().is_none());
    assert_eq!(plan.replaced_first.unwrap().as_str(), "old");
    let plan = plan_deployment(Config::template(), DeployStrategy::BlueGreen, Some(cid("old")));
    assert_eq!(plan.deployment.old_container().unwrap().as_str(), "old");
    assert!(plan.replaced_first.is_none());
    let plan = plan_deployment(Config::template(), DeployStrategy::Recreate, None);
    assert!(plan.deployment.old_container().is_none() && plan.replaced_first.is_none());
}
