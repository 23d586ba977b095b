//! Deployment errors: an opaque error with a stable kind and accessors for the
//! details each kind carries.
use crate::runtime::{ContainerError, ImageError, NetworkError};
use crate::runtime::traits::{container_error_text, image_error_text, network_error_text};
use crate::text::{dec, dec_string, join2, join3, own};
use crate::time::{utc_display, utc_text, Timestamp};
use vstd::prelude::*;

verus! {

/// Categories of deployment errors.
#[derive(Debug, Clone, Copy, PartialEq, Eq, Structural)]
#[non_exhaustive]
pub enum DeployErrorKind {
    ImagePull,
    ImagePullTimeout,
    ContainerCreate,
    ContainerStart,
    ContainerStop,
    ContainerRemove,
    Network,
    NetworkCreation,
    HealthCheck,
    HealthCheckTimeout,
    Rollback,
    NoOldContainer,
    NoPreviousDeployment,
    Config,
    LockHeld,
    Lock,
}

/// Who holds a deployment lock.
#[derive(Debug)]
pub struct LockHolderInfo {
    pub holder: String,
    pub pid: u32,
    pub started_at: Timestamp,
}

/// What a deployment error says, with its cause.
#[derive(Debug)]
pub enum DeployErrorDetail {
    ImagePullFailed { source: ImageError },
    ContainerCreateFailed { source: ContainerError },
    ContainerStartFailed { source: ContainerError },
    ContainerStopFailed { source: ContainerError },
    ContainerRemoveFailed { source: ContainerError },
    NetworkFailed { source: NetworkError },
    ImagePullFailedMsg { message: String },
    ImagePullTimeout { seconds: u64 },
    ContainerCreateFailedMsg { message: String },
    ContainerStartFailedMsg { message: String },
    ContainerStopFailedMsg { message: String },
    ContainerRemoveFailedMsg { message: String },
    NetworkFailedMsg { message: String },
    NetworkCreationFailed { message: String },
    HealthCheckFailed { message: String },
    HealthCheckTimeout { seconds: u64 },
    RollbackFailed { message: String },
    NoOldContainer,
    NoPreviousDeployment { service: String },
    ConfigError { message: String },
    LockHeld { holder: String, pid: u32, started_at: Timestamp },
    LockError { message: String },
}

/// The message that `Display` writes for a deployment error.
pub open spec fn deploy_error_text(d: DeployErrorDetail) -> Seq<char> {
    match d {
        DeployErrorDetail::ImagePullFailed { source } => "failed to pull image: "@ + image_error_text(source),
        DeployErrorDetail::ContainerCreateFailed { source } => "failed to create container: "@
            + container_error_text(source),
        DeployErrorDetail::ContainerStartFailed { source } => "failed to start container: "@
            + container_error_text(source),
        DeployErrorDetail::ContainerStopFailed { source } => "failed to stop container: "@
            + container_error_text(source),
        DeployErrorDetail::ContainerRemoveFailed { source } => "failed to remove container: "@
            + container_error_text(source),
        DeployErrorDetail::NetworkFailed { source } => "network operation failed: "@
            + network_error_text(source),
        DeployErrorDetail::ImagePullFailedMsg { message } => "failed to pull image: "@ + message@,
        DeployErrorDetail::ImagePullTimeout { seconds } => "image pull timed out after "@ + dec(
            seconds as nat,
        ) + " seconds"@,
        DeployErrorDetail::ContainerCreateFailedMsg { message } => "failed to create container: "@
            + message@,
        DeployErrorDetail::ContainerStartFailedMsg { message } => "failed to start container: "@
            + message@,
        DeployErrorDetail::ContainerStopFailedMsg { message } => "failed to stop container: "@
            + message@,
        DeployErrorDetail::ContainerRemoveFailedMsg { message } => "failed to remove container: "@
            + message@,
        DeployErrorDetail::NetworkFailedMsg { message } => "network operation failed: "@ + message@,
        DeployErrorDetail::NetworkCreationFailed { message } => "failed to create network: "@
            + message@,
        DeployErrorDetail::HealthCheckFailed { message } => "health check failed: "@ + message@,
        DeployErrorDetail::HealthCheckTimeout { seconds } => "health check timed out after "@ + dec(
            seconds as nat,
        ) + " seconds"@,
        DeployErrorDetail::RollbackFailed { message } => "rollback failed: "@ + message@,
        DeployErrorDetail::NoOldContainer => "no old container to rollback to (first deployment)"@,
        DeployErrorDetail::NoPreviousDeployment { service } => "no previous deployment exists for service "@
            + service@,
        DeployErrorDetail::ConfigError { message } => "configuration error: "@ + message@,
        DeployErrorDetail::LockHeld { holder, pid, started_at } => "deployment locked by "@ + holder@
            + " (pid "@ + dec(pid as nat) + ") since "@ + utc_display(started_at),
        DeployErrorDetail::LockError { message } => "lock error: "@ + message@,
    }
}

/// The kind of each detail.
pub open spec fn detail_kind(d: DeployErrorDetail) -> DeployErrorKind {
    match d {
        DeployErrorDetail::ImagePullFailed { .. } => DeployErrorKind::ImagePull,
        DeployErrorDetail::ImagePullFailedMsg { .. } => DeployErrorKind::ImagePull,
        DeployErrorDetail::ImagePullTimeout { .. } => DeployErrorKind::ImagePullTimeout,
        DeployErrorDetail::ContainerCreateFailed { .. } => DeployErrorKind::ContainerCreate,
        DeployErrorDetail::ContainerCreateFailedMsg { .. } => DeployErrorKind::ContainerCreate,
        DeployErrorDetail::ContainerStartFailed { .. } => DeployErrorKind::ContainerStart,
        DeployErrorDetail::ContainerStartFailedMsg { .. } => DeployErrorKind::ContainerStart,
        DeployErrorDetail::ContainerStopFailed { .. } => DeployErrorKind::ContainerStop,
        DeployErrorDetail::ContainerStopFailedMsg { .. } => DeployErrorKind::ContainerStop,
        DeployErrorDetail::ContainerRemoveFailed { .. } => DeployErrorKind::ContainerRemove,
        DeployErrorDetail::ContainerRemoveFailedMsg { .. } => DeployErrorKind::ContainerRemove,
        DeployErrorDetail::NetworkFailed { .. } => DeployErrorKind::Network,
        DeployErrorDetail::NetworkFailedMsg { .. } => DeployErrorKind::Network,
        DeployErrorDetail::NetworkCreationFailed { .. } => DeployErrorKind::NetworkCreation,
        DeployErrorDetail::HealthCheckFailed { .. } => DeployErrorKind::HealthCheck,
        DeployErrorDetail::HealthCheckTimeout { .. } => DeployErrorKind::HealthCheckTimeout,
        DeployErrorDetail::RollbackFailed { .. } => DeployErrorKind::Rollback,
        DeployErrorDetail::NoOldContainer => DeployErrorKind::NoOldContainer,
        DeployErrorDetail::NoPreviousDeployment { .. } => DeployErrorKind::NoPreviousDeployment,
        DeployErrorDetail::ConfigError { .. } => DeployErrorKind::Config,
        DeployErrorDetail::LockHeld { .. } => DeployErrorKind::LockHeld,
        DeployErrorDetail::LockError { .. } => DeployErrorKind::Lock,
    }
}

/// An error of a deployment step. Use `kind()` for its category.
#[derive(Debug)]
pub struct DeployError(DeployErrorDetail);

impl View for DeployError {
    type V = DeployErrorDetail;

    closed spec fn view(&self) -> DeployErrorDetail {
        self.0
    }
}

impl DeployError {
    /// The error with this detail.
    pub fn from_detail(d: DeployErrorDetail) -> (r: Self)
        ensures
            r@ == d,
    {
        DeployError(d)
    }

    /// The kind of this error.
    pub fn kind(&self) -> (r: DeployErrorKind)
        ensures
            r == detail_kind(self@),
    {
        match &self.0 {
            DeployErrorDetail::ImagePullFailed { .. } => DeployErrorKind::ImagePull,
            DeployErrorDetail::ImagePullFailedMsg { .. } => DeployErrorKind::ImagePull,
            DeployErrorDetail::ImagePullTimeout { .. } => DeployErrorKind::ImagePullTimeout,
            DeployErrorDetail::ContainerCreateFailed { .. } => DeployErrorKind::ContainerCreate,
            DeployErrorDetail::ContainerCreateFailedMsg { .. } => DeployErrorKind::ContainerCreate,
            DeployErrorDetail::ContainerStartFailed { .. } => DeployErrorKind::ContainerStart,
            DeployErrorDetail::ContainerStartFailedMsg { .. } => DeployErrorKind::ContainerStart,
            DeployErrorDetail::ContainerStopFailed { .. } => DeployErrorKind::ContainerStop,
            DeployErrorDetail::ContainerStopFailedMsg { .. } => DeployErrorKind::ContainerStop,
            DeployErrorDetail::ContainerRemoveFailed { .. } => DeployErrorKind::ContainerRemove,
            DeployErrorDetail::ContainerRemoveFailedMsg { .. } => DeployErrorKind::ContainerRemove,
            DeployErrorDetail::NetworkFailed { .. } => DeployErrorKind::Network,
            DeployErrorDetail::NetworkFailedMsg { .. } => DeployErrorKind::Network,
            DeployErrorDetail::NetworkCreationFailed { .. } => DeployErrorKind::NetworkCreation,
            DeployErrorDetail::HealthCheckFailed { .. } => DeployErrorKind::HealthCheck,
            DeployErrorDetail::HealthCheckTimeout { .. } => DeployErrorKind::HealthCheckTimeout,
            DeployErrorDetail::RollbackFailed { .. } => DeployErrorKind::Rollback,
            DeployErrorDetail::NoOldContainer => DeployErrorKind::NoOldContainer,
            DeployErrorDetail::NoPreviousDeployment { .. } => DeployErrorKind::NoPreviousDeployment,
            DeployErrorDetail::ConfigError { .. } => DeployErrorKind::Config,
            DeployErrorDetail::LockHeld { .. } => DeployErrorKind::LockHeld,
            DeployErrorDetail::LockError { .. } => DeployErrorKind::Lock,
        }
    }

    /// Who holds the lock, if this is a `LockHeld` error.
    pub fn lock_holder_info(&self) -> (r: Option<LockHolderInfo>)
        ensures
            match self@ {
                DeployErrorDetail::LockHeld { holder, pid, started_at } => r == Some(
                    LockHolderInfo { holder, pid, started_at },
                ),
                _ => r is None,
            },
    {
        match &self.0 {
            DeployErrorDetail::LockHeld { holder, pid, started_at } => Some(
                LockHolderInfo { holder: holder.clone(), pid: *pid, started_at: *started_at },
            ),
            _ => None,
        }
    }

    /// The service, if this is a `NoPreviousDeployment` error.
    pub fn service_name(&self) -> (r: Option<&str>)
        ensures
            match self@ {
                DeployErrorDetail::NoPreviousDeployment { service } => r is Some && r->0@
                    == service@,
                _ => r is None,
            },
    {
        match &self.0 {
            DeployErrorDetail::NoPreviousDeployment { service } => Some(service.as_str()),
            _ => None,
        }
    }

    /// The timeout in seconds, if this is a `HealthCheckTimeout` error.
    pub fn timeout_seconds(&self) -> (r: Option<u64>)
        ensures
            match self@ {
                DeployErrorDetail::HealthCheckTimeout { seconds } => r == Some(seconds),
                _ => r is None,
            },
    {
        match &self.0 {
            DeployErrorDetail::HealthCheckTimeout { seconds } => Some(*seconds),
            _ => None,
        }
    }

    pub fn image_pull_failed(message: String) -> (r: Self)
        ensures
            r@ == (DeployErrorDetail::ImagePullFailedMsg { message }),
    {
        DeployError(DeployErrorDetail::ImagePullFailedMsg { message })
    }

    pub fn image_pull_timeout(seconds: u64) -> (r: Self)
        ensures
            r@ == (DeployErrorDetail::ImagePullTimeout { seconds }),
    {
        DeployError(DeployErrorDetail::ImagePullTimeout { seconds })
    }

    pub fn container_create_failed(message: String) -> (r: Self)
        ensures
            r@ == (DeployErrorDetail::ContainerCreateFailedMsg { message }),
    {
        DeployError(DeployErrorDetail::ContainerCreateFailedMsg { message })
    }

    pub fn container_start_failed(message: String) -> (r: Self)
        ensures
            r@ == (DeployErrorDetail::ContainerStartFailedMsg { message }),
    {
        DeployError(DeployErrorDetail::ContainerStartFailedMsg { message })
    }

    pub fn container_stop_failed(message: String) -> (r: Self)
        ensures
            r@ == (DeployErrorDetail::ContainerStopFailedMsg { message }),
    {
        DeployError(DeployErrorDetail::ContainerStopFailedMsg { message })
    }

    pub fn container_remove_failed(message: String) -> (r: Self)
        ensures
            r@ == (DeployErrorDetail::ContainerRemoveFailedMsg { message }),
    {
        DeployError(DeployErrorDetail::ContainerRemoveFailedMsg { message })
    }

    pub fn network_failed(message: String) -> (r: Self)
        ensures
            r@ == (DeployErrorDetail::NetworkFailedMsg { message }),
    {
        DeployError(DeployErrorDetail::NetworkFailedMsg { message })
    }

    pub fn network_creation_failed(message: String) -> (r: Self)
        ensures
            r@ == (DeployErrorDetail::NetworkCreationFailed { message }),
    {
        DeployError(DeployErrorDetail::NetworkCreationFailed { message })
    }

    pub fn health_check_failed(message: String) -> (r: Self)
        ensures
            r@ == (DeployErrorDetail::HealthCheckFailed { message }),
    {
        DeployError(DeployErrorDetail::HealthCheckFailed { message })
    }

    pub fn health_check_timeout(seconds: u64) -> (r: Self)
        ensures
            r@ == (DeployErrorDetail::HealthCheckTimeout { seconds }),
    {
        DeployError(DeployErrorDetail::HealthCheckTimeout { seconds })
    }

    pub fn rollback_failed(message: String) -> (r: Self)
        ensures
            r@ == (DeployErrorDetail::RollbackFailed { message }),
    {
        DeployError(DeployErrorDetail::RollbackFailed { message })
    }

    pub fn no_old_container() -> (r: Self)
        ensures
            r@ == DeployErrorDetail::NoOldContainer,
    {
        DeployError(DeployErrorDetail::NoOldContainer)
    }

    pub fn no_previous_deployment(service: String) -> (r: Self)
        ensures
            r@ == (DeployErrorDetail::NoPreviousDeployment { service }),
    {
        DeployError(DeployErrorDetail::NoPreviousDeployment { service })
    }

    pub fn config_error(message: String) -> (r: Self)
        ensures
            r@ == (DeployErrorDetail::ConfigError { message }),
    {
        DeployError(DeployErrorDetail::ConfigError { message })
    }

    pub fn lock_held(holder: String, pid: u32, started_at: Timestamp) -> (r: Self)
        ensures
            r@ == (DeployErrorDetail::LockHeld { holder, pid, started_at }),
    {
        DeployError(DeployErrorDetail::LockHeld { holder, pid, started_at })
    }

    pub fn lock_error(message: String) -> (r: Self)
        ensures
            r@ == (DeployErrorDetail::LockError { message }),
    {
        DeployError(DeployErrorDetail::LockError { message })
    }

    /// The message that `Display` writes for this error.
    pub fn to_string(&self) -> (r: String)
        ensures
            r@ == deploy_error_text(self@),
    {
        match &self.0 {
            DeployErrorDetail::ImagePullFailed { source } => {
                let m = source.to_string();
                join2("failed to pull image: ", m.as_str())
            },
            DeployErrorDetail::ContainerCreateFailed { source } => {
                let m = source.to_string();
                join2("failed to create container: ", m.as_str())
            },
            DeployErrorDetail::ContainerStartFailed { source } => {
                let m = source.to_string();
                join2("failed to start container: ", m.as_str())
            },
            DeployErrorDetail::ContainerStopFailed { source } => {
                let m = source.to_string();
                join2("failed to stop container: ", m.as_str())
            },
            DeployErrorDetail::ContainerRemoveFailed { source } => {
                let m = source.to_string();
                join2("failed to remove container: ", m.as_str())
            },
            DeployErrorDetail::NetworkFailed { source } => {
                let m = source.to_string();
                join2("network operation failed: ", m.as_str())
            },
            DeployErrorDetail::ImagePullFailedMsg { message } => join2(
                "failed to pull image: ",
                message.as_str(),
            ),
            DeployErrorDetail::ImagePullTimeout { seconds } => {
                let n = dec_string(*seconds);
                join3("image pull timed out after ", n.as_str(), " seconds")
            },
            DeployErrorDetail::ContainerCreateFailedMsg { message } => join2(
                "failed to create container: ",
                message.as_str(),
            ),
            DeployErrorDetail::ContainerStartFailedMsg { message } => join2(
                "failed to start container: ",
                message.as_str(),
            ),
            DeployErrorDetail::ContainerStopFailedMsg { message } => join2(
                "failed to stop container: ",
                message.as_str(),
            ),
            DeployErrorDetail::ContainerRemoveFailedMsg { message } => join2(
                "failed to remove container: ",
                message.as_str(),
            ),
            DeployErrorDetail::NetworkFailedMsg { message } => join2(
                "network operation failed: ",
                message.as_str(),
            ),
            DeployErrorDetail::NetworkCreationFailed { message } => join2(
                "failed to create network: ",
                message.as_str(),
            ),
            DeployErrorDetail::HealthCheckFailed { message } => join2(
                "health check failed: ",
                message.as_str(),
            ),
            DeployErrorDetail::HealthCheckTimeout { seconds } => {
                let n = dec_string(*seconds);
                join3("health check timed out after ", n.as_str(), " seconds")
            },
            DeployErrorDetail::RollbackFailed { message } => join2(
                "rollback failed: ",
                message.as_str(),
            ),
            DeployErrorDetail::NoOldContainer => own(
                "no old container to rollback to (first deployment)",
            ),
            DeployErrorDetail::NoPreviousDeployment { service } => join2(
                "no previous deployment exists for service ",
                service.as_str(),
            ),
            DeployErrorDetail::ConfigError { message } => join2(
                "configuration error: ",
                message.as_str(),
            ),
            DeployErrorDetail::LockHeld { holder, pid, started_at } => {
                let mut s = join2("deployment locked by ", holder.as_str());
                s.append(" (pid ");
                let p = dec_string(*pid as u64);
                s.append(p.as_str());
                s.append(") since ");
                let t = utc_text(started_at);
                s.append(t.as_str());
                s
            },
            DeployErrorDetail::LockError { message } => join2("lock error: ", message.as_str()),
        }
    }
}

/// `context_image_pull`: an image error becomes an image-pull deployment error.
pub trait ImageErrorExt<T>: Sized {
    fn context_image_pull(self) -> Result<T, DeployError>;
}

impl<T> ImageErrorExt<T> for Result<T, ImageError> {
    fn context_image_pull(self) -> (r: Result<T, DeployError>)
        ensures
            match (self, r) {
                (Ok(a), Ok(b)) => a == b,
                (Err(e), Err(d)) => d@ == (DeployErrorDetail::ImagePullFailed { source: e }),
                _ => false,
            },
    {
        match self {
            Ok(v) => Ok(v),
            Err(source) => Err(DeployError(DeployErrorDetail::ImagePullFailed { source })),
        }
    }
}

/// Container errors become deployment errors of the step that failed.
pub trait ContainerErrorExt<T>: Sized {
    fn context_container_create(self) -> Result<T, DeployError>;

    fn context_container_start(self) -> Result<T, DeployError>;

    fn context_container_stop(self) -> Result<T, DeployError>;

    fn context_container_remove(self) -> Result<T, DeployError>;
}

impl<T> ContainerErrorExt<T> for Result<T, ContainerError> {
    fn context_container_create(self) -> (r: Result<T, DeployError>)
        ensures
            match (self, r) {
                (Ok(a), Ok(b)) => a == b,
                (Err(e), Err(d)) => d@ == (DeployErrorDetail::ContainerCreateFailed { source: e }),
                _ => false,
            },
    {
        match self {
            Ok(v) => Ok(v),
            Err(source) => Err(DeployError(DeployErrorDetail::ContainerCreateFailed { source })),
        }
    }

    fn context_container_start(self) -> (r: Result<T, DeployError>)
        ensures
            match (self, r) {
                (Ok(a), Ok(b)) => a == b,
                (Err(e), Err(d)) => d@ == (DeployErrorDetail::ContainerStartFailed { source: e }),
                _ => false,
            },
    {
        match self {
            Ok(v) => Ok(v),
            Err(source) => Err(DeployError(DeployErrorDetail::ContainerStartFailed { source })),
        }
    }

    fn context_container_stop(self) -> (r: Result<T, DeployError>)
        ensures
            match (self, r) {
                (Ok(a), Ok(b)) => a == b,
                (Err(e), Err(d)) => d@ == (DeployErrorDetail::ContainerStopFailed { source: e }),
                _ => false,
            },
    {
        match self {
            Ok(v) => Ok(v),
            Err(source) => Err(DeployError(DeployErrorDetail::ContainerStopFailed { source })),
        }
    }

    fn context_container_remove(self) -> (r: Result<T, DeployError>)
        ensures
            match (self, r) {
                (Ok(a), Ok(b)) => a == b,
                (Err(e), Err(d)) => d@ == (DeployErrorDetail::ContainerRemoveFailed { source: e }),
                _ => false,
            },
    {
        match self {
            Ok(v) => Ok(v),
            Err(source) => Err(DeployError(DeployErrorDetail::ContainerRemoveFailed { source })),
        }
    }
}

/// Network errors become network deployment errors.
pub trait NetworkErrorExt<T>: Sized {
    fn context_network(self) -> Result<T, DeployError>;
}

impl<T> NetworkErrorExt<T> for Result<T, NetworkError> {
    fn context_network(self) -> (r: Result<T, DeployError>)
        ensures
            match (self, r) {
                (Ok(a), Ok(b)) => a == b,
                (Err(e), Err(d)) => d@ == (DeployErrorDetail::NetworkFailed { source: e }),
                _ => false,
            },
    {
        match self {
            Ok(v) => Ok(v),
            Err(source) => Err(DeployError(DeployErrorDetail::NetworkFailed { source })),
        }
    }
}

} // verus!
