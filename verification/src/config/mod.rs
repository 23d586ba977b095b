//! Configuration: what `peleka.yml` describes, and how destinations override it.
pub mod config;
pub mod env_value;
pub mod healthcheck;
pub mod restart_policy;
pub mod server;
pub mod servers;
pub mod stop;

pub use config::{
    CleanupConfig, Config, Destination, LoggingConfig, NetworkConfig, PullPolicy,
    ResourcesConfig, StrategyConfig, CONFIG_FILENAME, CONFIG_FILENAME_ALT, CONFIG_FILENAME_DIR,
    generate_template_yaml,
};
pub use env_value::{resolve_env_map, EnvValue};
pub use healthcheck::HealthcheckConfig;
pub use restart_policy::RestartPolicy;
pub use server::ServerConfig;
pub use stop::StopConfig;
