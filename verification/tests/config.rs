use peleka::config::config::{config_candidates, init_template};
use peleka::config::servers::{servers_from_entries, ServerEntry};
use peleka::config::{
    generate_template_yaml, resolve_env_map, Config, Destination, EnvValue, RestartPolicy,
    ServerConfig,
};
use peleka::error::Error;
use peleka::runtime::RuntimeType;
use peleka::strmap::StrMap;

fn env_of(pairs: &[(&str, &str)]) -> StrMap<String> {
    let mut m = StrMap::new();
    for (k, v) in pairs {
        m.insert(k.to_string(), v.to_string());
    }
    m
}

#[test]
fn server_short_forms_parse() {
    let s = ServerConfig::parse("deploy@app.example.com:2222").unwrap();
    assert_eq!(s.host, "app.example.com");
    assert_eq!(s.port, 2222);
    assert_eq!(s.user.as_deref(), Some("deploy"));
    assert!(!s.trust_first_connection);
    assert!(!peleka::config::server::default_trust_first_connection());
    let s = ServerConfig::parse("10.0.0.5").unwrap();
    assert_eq!(s.port, 22);
    assert_eq!(s.user, None);
    assert_eq!(ServerConfig::parse("").unwrap_err(), "server address cannot be empty");
    assert_eq!(ServerConfig::parse("root@:22").unwrap_err(), "hostname cannot be empty");
    assert!(ServerConfig::parse("host:notaport").is_err());
    assert!(ServerConfig::parse("host:70000").is_err());
}

#[test]
fn server_runtime_override() {
    let mut s = ServerConfig::parse("h").unwrap();
    s.runtime = Some(RuntimeType::Podman);
    let rc = s.runtime_config();
    assert_eq!(rc.runtime, Some(RuntimeType::Podman));
    assert_eq!(rc.socket, None);
}

#[test]
fn server_entries_become_servers() {
    let entries = vec![
        ServerEntry::Simple("a.example.com".to_string()),
        ServerEntry::Detailed(ServerConfig::parse("b.example.com:23").unwrap()),
    ];
    let servers = servers_from_entries(entries, "at least one server is required").unwrap();
    assert_eq!(servers.len(), 2);
    assert_eq!(servers.first().host, "a.example.com");
    assert_eq!(
        servers_from_entries(vec![], "at least one server is required").unwrap_err(),
        "at least one server is required"
    );
    let bad = vec![ServerEntry::Simple("ok".to_string()), ServerEntry::Simple(" ".to_string())];
    assert_eq!(servers_from_entries(bad, "x").unwrap_err(), "server address cannot be empty");
}

#[test]
fn restart_policies_round_trip() {
    for s in ["no", "always", "unless-stopped", "on-failure", "on-failure:5"] {
        let p = RestartPolicy::from_str(s).unwrap();
        assert_eq!(p.to_string(), s);
    }
    assert_eq!(RestartPolicy::from_str("on-failure:3").unwrap(), RestartPolicy::OnFailure { max_retries: Some(3) });
    assert!(RestartPolicy::from_str("sometimes").is_err());
    assert!(RestartPolicy::from_str("on-failure:x").is_err());
}

#[test]
fn environment_values_resolve() {
    let environment = env_of(&[("TOKEN", "s3cret")]);
    assert_eq!(EnvValue::Literal("x".to_string()).resolve(&environment).unwrap(), "x");
    let from = EnvValue::FromEnv { var: "TOKEN".to_string(), default: None };
    assert_eq!(from.resolve(&environment).unwrap(), "s3cret");
    let missing = EnvValue::FromEnv { var: "NOPE".to_string(), default: Some("d".to_string()) };
    assert_eq!(missing.resolve(&environment).unwrap(), "d");
    let required = EnvValue::FromEnv { var: "NOPE".to_string(), default: None };
    match required.resolve(&environment) {
        Err(Error::MissingEnvVar(v)) => assert_eq!(v, "NOPE"),
        _ => panic!("expected a missing variable"),
    }
    let mut map = StrMap::new();
    map.insert("A".to_string(), EnvValue::Literal("1".to_string()));
    map.insert("B".to_string(), required);
    assert!(matches!(resolve_env_map(&map, &environment), Err(Error::MissingEnvVar(_))));
}

#[test]
fn template_is_refused_until_customized() {
    let config = Config::template();
    match config.validate_placeholders() {
        Err(Error::InvalidConfig(m)) => assert!(m.contains("server.example.com")),
        _ => panic!("expected the placeholder server to be refused"),
    }
    let mut config = Config::template();
    config.servers = nonempty::NonEmpty::new(ServerConfig::parse("real.example.com").unwrap());
    let warnings = config.validate_placeholders().unwrap();
    assert_eq!(warnings.len(), 2);
}

#[test]
fn template_yaml_names_service_image_and_server() {
    let yaml = generate_template_yaml(&Config::template());
    assert!(yaml.starts_with("service: my-app\nimage: my-registry/my-app:latest\nservers:\n  - host: server.example.com\n    port: 22\n    user: deploy"));
}

#[test]
fn destinations_override_and_merge() {
    let mut config = Config::template();
    config.ports = vec!["80".to_string()];
    config.labels.insert("team".to_string(), "a".to_string());
    config.labels.insert("tier".to_string(), "web".to_string());
    let mut labels = StrMap::new();
    labels.insert("team".to_string(), "b".to_string());
    let dest = Destination {
        servers: None,
        env: StrMap::new(),
        labels,
        ports: Some(vec!["8080".to_string()]),
        volumes: None,
        healthcheck: None,
    };
    config.destinations.insert("staging".to_string(), dest);
    let staged = config.for_destination("staging").unwrap();
    assert_eq!(staged.ports, vec!["8080".to_string()]);
    assert_eq!(staged.labels.get("team"), Some(&"b".to_string()));
    assert_eq!(staged.labels.get("tier"), Some(&"web".to_string()));
    assert!(matches!(config.for_destination("prod"), Err(Error::UnknownDestination(_))));
    let kept = staged.destinations.get("staging").unwrap();
    assert_eq!(kept.ports, Some(vec!["8080".to_string()]));
    assert_eq!(kept.labels.get("team"), Some(&"b".to_string()));
    assert!(staged.for_destination("staging").is_ok());
    let same = Config::template().with_optional_destination(None).unwrap();
    assert_eq!(same.service.as_str(), "my-app");
}

#[test]
fn network_and_stop_defaults() {
    let config = Config::template();
    assert_eq!(config.network_name(), "peleka");
    assert_eq!(config.stop_timeout(), std::time::Duration::from_secs(30));
}

#[test]
fn config_is_looked_for_in_three_places() {
    let c = config_candidates("/proj");
    assert_eq!(c, vec!["/proj/peleka.yml", "/proj/peleka.yaml", "/proj/.peleka/config.yml"]);
}

#[test]
fn init_applies_service_and_image() {
    let c = init_template(Some("shop"), Some("ghcr.io/acme/shop:1.0")).unwrap();
    assert_eq!(c.service.as_str(), "shop");
    assert_eq!(c.image.to_string(), "ghcr.io/acme/shop:1.0");
    assert!(matches!(init_template(Some("Shop"), None), Err(Error::InvalidConfig(_))));
    assert!(matches!(init_template(None, Some("")), Err(Error::InvalidConfig(_))));
    let c = init_template(None, None).unwrap();
    assert_eq!(c.service.as_str(), "my-app");
}
