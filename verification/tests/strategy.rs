use peleka::config::{Config, StrategyConfig};
use peleka::deploy::DeployStrategy;

#[test]
fn blue_green_for_container_only_ports() {
    let mut config = Config::template();
    config.ports = vec!["8080".to_string()];

    let (strategy, reason) = DeployStrategy::for_config(&config);
    assert_eq!(strategy, DeployStrategy::BlueGreen);
    assert!(reason.is_none());
}

#[test]
fn recreate_for_host_port_bindings() {
    let mut config = Config::template();
    config.ports = vec!["80:8080".to_string()];

    let (strategy, reason) = DeployStrategy::for_config(&config);
    assert_eq!(strategy, DeployStrategy::Recreate);
    assert!(reason.is_some());
    assert!(reason.unwrap().contains("host port"));
}

#[test]
fn explicit_recreate_strategy() {
    let mut config = Config::template();
    config.strategy = Some(StrategyConfig::Recreate);

    let (strategy, reason) = DeployStrategy::for_config(&config);
    assert_eq!(strategy, DeployStrategy::Recreate);
    assert!(reason.is_none());
}

#[test]
fn explicit_blue_green_strategy() {
    let mut config = Config::template();
    config.strategy = Some(StrategyConfig::BlueGreen);

    let (strategy, reason) = DeployStrategy::for_config(&config);
    assert_eq!(strategy, DeployStrategy::BlueGreen);
    assert!(reason.is_none());
}

#[test]
fn explicit_strategy_overrides_auto_detection() {
    let mut config = Config::template();
    config.ports = vec!["80:8080".to_string()];
    config.strategy = Some(StrategyConfig::BlueGreen);

    let (strategy, reason) = DeployStrategy::for_config(&config);
    assert_eq!(strategy, DeployStrategy::BlueGreen);
    assert!(reason.is_none());
}

#[test]
fn udp_host_binding_also_forces_recreate() {
    let mut config = Config::template();
    config.ports = vec!["9000".to_string(), "53:53/udp".to_string()];
    let (strategy, reason) = DeployStrategy::for_config(&config);
    assert_eq!(strategy, DeployStrategy::Recreate);
    assert_eq!(reason, Some("host port bindings prevent blue-green deployment"));
}
