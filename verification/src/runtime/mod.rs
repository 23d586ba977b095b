//! Container runtimes: their types, how one is detected on a server, and the
//! decisions taken around the runtime API.
pub mod api_error;
pub mod backends;
pub mod bollard;
pub mod detection;
pub mod error;
pub mod traits;
pub mod types;

pub use traits::{
    ContainerConfig, ContainerError, ContainerFilters, ContainerInfo, ContainerState,
    ContainerSummary, ExecConfig, ExecError, ExecInfo, ExecResult, HealthState,
    HealthcheckConfig, ImageError, LogError, LogLine, LogOptions, LogStream, NetworkConfig,
    NetworkError, NetworkInfo, NetworkSettings, PortMapping, Protocol, RegistryAuth,
    ResourceLimits, RestartPolicyConfig, RuntimeInfoError, RuntimeMetadata, Sealed, VolumeMount,
};
pub use types::{default_socket_path, RuntimeConfig, RuntimeInfo, RuntimeType};
pub use error::{DetectionError, RuntimeError, RuntimeErrorKind};
pub use detection::{Detect, RuntimeDetection};
pub use api_error::ApiError;
pub use self::bollard::BollardRuntime;
pub use backends::QuadletUnit;
