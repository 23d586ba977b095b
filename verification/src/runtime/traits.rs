//! The data exchanged with a container runtime: container, network, image and
//! exec settings and results, log options, and the errors of each operation.
use crate::config::RestartPolicy;
use crate::strmap::StrMap;
use crate::text::{join2, own};
use crate::types::{ContainerId, ImageRef, NetworkAlias};
use std::time::{Duration, SystemTime};
use vstd::prelude::*;

verus! {

#[verifier::external_type_specification]
#[verifier::external_body]
pub struct ExSystemTime(SystemTime);

/// Marker for the runtime backends this crate provides.
pub trait Sealed {}

/// Filters for listing containers.
#[derive(Debug)]
pub struct ContainerFilters {
    /// Labels that must be present with these values.
    pub labels: StrMap<String>,
    /// Name filter (partial match).
    pub name: Option<String>,
    /// Include stopped containers.
    pub all: bool,
}

impl ContainerFilters {
    /// The containers peleka manages for `service`: labelled
    /// `peleka.service=<service>` and `peleka.managed=true`, stopped ones
    /// included when `include_stopped` holds.
    pub fn for_service(service: &crate::types::ServiceName, include_stopped: bool) -> (r: Self)
        ensures
            r.labels@.len() == 2,
            r.labels@.contains_key("peleka.service"@),
            r.labels@["peleka.service"@]@ == service@,
            r.labels@.contains_key("peleka.managed"@),
            r.labels@["peleka.managed"@]@ == "true"@,
            r.name is None,
            r.all == include_stopped,
    {
        let mut labels: StrMap<String> = StrMap::new();
        labels.insert(own("peleka.service"), service.to_string());
        labels.insert(own("peleka.managed"), own("true"));
        proof {
            reveal_strlit("peleka.service");
            reveal_strlit("peleka.managed");
            assert("peleka.service"@[7] != "peleka.managed"@[7]);
        }
        ContainerFilters { labels, name: None, all: include_stopped }
    }
}

/// Summary information about a container.
#[derive(Debug)]
pub struct ContainerSummary {
    pub id: ContainerId,
    pub name: String,
    pub image: String,
    /// Current state, in lower case (`running`, `exited`, ...).
    pub state: String,
    pub status: String,
    pub labels: StrMap<String>,
}

/// Errors from container operations.
#[derive(Debug)]
pub enum ContainerError {
    NotFound(String),
    AlreadyExists(String),
    NotRunning(String),
    AlreadyRunning(String),
    ImageNotFound(String),
    InvalidConfig(String),
    Runtime(String),
}

/// The message that `Display` writes for a container error.
pub open spec fn container_error_text(e: ContainerError) -> Seq<char> {
    match e {
        ContainerError::NotFound(m) => "container not found: "@ + m@,
        ContainerError::AlreadyExists(m) => "container already exists: "@ + m@,
        ContainerError::NotRunning(m) => "container not running: "@ + m@,
        ContainerError::AlreadyRunning(m) => "container already running: "@ + m@,
        ContainerError::ImageNotFound(m) => "image not found: "@ + m@,
        ContainerError::InvalidConfig(m) => "invalid configuration: "@ + m@,
        ContainerError::Runtime(m) => "runtime error: "@ + m@,
    }
}

impl ContainerError {
    /// The message that `Display` writes for this error.
    pub fn to_string(&self) -> (r: String)
        ensures
            r@ == container_error_text(*self),
    {
        match self {
            ContainerError::NotFound(m) => join2("container not found: ", m.as_str()),
            ContainerError::AlreadyExists(m) => join2("container already exists: ", m.as_str()),
            ContainerError::NotRunning(m) => join2("container not running: ", m.as_str()),
            ContainerError::AlreadyRunning(m) => join2("container already running: ", m.as_str()),
            ContainerError::ImageNotFound(m) => join2("image not found: ", m.as_str()),
            ContainerError::InvalidConfig(m) => join2("invalid configuration: ", m.as_str()),
            ContainerError::Runtime(m) => join2("runtime error: ", m.as_str()),
        }
    }
}

/// Errors from exec operations.
#[derive(Debug)]
pub enum ExecError {
    ContainerNotFound(String),
    ContainerNotRunning(String),
    ExecNotFound(String),
    Failed(String),
    Runtime(String),
}

/// The message that `Display` writes for an exec error.
pub open spec fn exec_error_text(e: ExecError) -> Seq<char> {
    match e {
        ExecError::ContainerNotFound(m) => "container not found: "@ + m@,
        ExecError::ContainerNotRunning(m) => "container not running: "@ + m@,
        ExecError::ExecNotFound(m) => "exec instance not found: "@ + m@,
        ExecError::Failed(m) => "exec failed: "@ + m@,
        ExecError::Runtime(m) => "runtime error: "@ + m@,
    }
}

impl ExecError {
    /// The message that `Display` writes for this error.
    pub fn to_string(&self) -> (r: String)
        ensures
            r@ == exec_error_text(*self),
    {
        match self {
            ExecError::ContainerNotFound(m) => join2("container not found: ", m.as_str()),
            ExecError::ContainerNotRunning(m) => join2("container not running: ", m.as_str()),
            ExecError::ExecNotFound(m) => join2("exec instance not found: ", m.as_str()),
            ExecError::Failed(m) => join2("exec failed: ", m.as_str()),
            ExecError::Runtime(m) => join2("runtime error: ", m.as_str()),
        }
    }
}

/// Errors from image operations.
#[derive(Debug)]
pub enum ImageError {
    NotFound(String),
    AuthenticationFailed(String),
    PullFailed(String),
    InUse(String),
    Runtime(String),
}

/// The message that `Display` writes for an image error.
pub open spec fn image_error_text(e: ImageError) -> Seq<char> {
    match e {
        ImageError::NotFound(m) => "image not found: "@ + m@,
        ImageError::AuthenticationFailed(m) => "authentication failed for registry: "@ + m@,
        ImageError::PullFailed(m) => "pull failed: "@ + m@,
        ImageError::InUse(m) => "image in use, cannot remove: "@ + m@,
        ImageError::Runtime(m) => "runtime error: "@ + m@,
    }
}

impl ImageError {
    /// The message that `Display` writes for this error.
    pub fn to_string(&self) -> (r: String)
        ensures
            r@ == image_error_text(*self),
    {
        match self {
            ImageError::NotFound(m) => join2("image not found: ", m.as_str()),
            ImageError::AuthenticationFailed(m) => join2(
                "authentication failed for registry: ",
                m.as_str(),
            ),
            ImageError::PullFailed(m) => join2("pull failed: ", m.as_str()),
            ImageError::InUse(m) => join2("image in use, cannot remove: ", m.as_str()),
            ImageError::Runtime(m) => join2("runtime error: ", m.as_str()),
        }
    }
}

/// Errors from network operations.
#[derive(Debug)]
pub enum NetworkError {
    NotFound(String),
    AlreadyExists(String),
    ContainerNotFound(String),
    NotConnected(String),
    InUse(String),
    Runtime(String),
}

/// The message that `Display` writes for a network error.
pub open spec fn network_error_text(e: NetworkError) -> Seq<char> {
    match e {
        NetworkError::NotFound(m) => "network not found: "@ + m@,
        NetworkError::AlreadyExists(m) => "network already exists: "@ + m@,
        NetworkError::ContainerNotFound(m) => "container not found: "@ + m@,
        NetworkError::NotConnected(m) => "container not connected to network: "@ + m@,
        NetworkError::InUse(m) => "network in use, cannot remove: "@ + m@,
        NetworkError::Runtime(m) => "runtime error: "@ + m@,
    }
}

impl NetworkError {
    /// The message that `Display` writes for this error.
    pub fn to_string(&self) -> (r: String)
        ensures
            r@ == network_error_text(*self),
    {
        match self {
            NetworkError::NotFound(m) => join2("network not found: ", m.as_str()),
            NetworkError::AlreadyExists(m) => join2("network already exists: ", m.as_str()),
            NetworkError::ContainerNotFound(m) => join2("container not found: ", m.as_str()),
            NetworkError::NotConnected(m) => join2(
                "container not connected to network: ",
                m.as_str(),
            ),
            NetworkError::InUse(m) => join2("network in use, cannot remove: ", m.as_str()),
            NetworkError::Runtime(m) => join2("runtime error: ", m.as_str()),
        }
    }
}

/// Errors from runtime information operations.
#[derive(Debug)]
pub enum RuntimeInfoError {
    ConnectionFailed(String),
    Runtime(String),
}

/// The message that `Display` writes for a runtime information error.
pub open spec fn runtime_info_error_text(e: RuntimeInfoError) -> Seq<char> {
    match e {
        RuntimeInfoError::ConnectionFailed(m) => "connection failed: "@ + m@,
        RuntimeInfoError::Runtime(m) => "runtime error: "@ + m@,
    }
}

impl RuntimeInfoError {
    /// The message that `Display` writes for this error.
    pub fn to_string(&self) -> (r: String)
        ensures
            r@ == runtime_info_error_text(*self),
    {
        match self {
            RuntimeInfoError::ConnectionFailed(m) => join2("connection failed: ", m.as_str()),
            RuntimeInfoError::Runtime(m) => join2("runtime error: ", m.as_str()),
        }
    }
}

/// Errors from log operations.
#[derive(Debug)]
pub enum LogError {
    ContainerNotFound(String),
    StreamError(String),
    Runtime(String),
}

/// Options for log streaming.
#[derive(Debug)]
pub struct LogOptions {
    pub stdout: bool,
    pub stderr: bool,
    /// Follow log output (like `tail -f`).
    pub follow: bool,
    pub timestamps: bool,
    /// Number of lines to show from the end.
    pub tail: Option<u64>,
    pub since: Option<SystemTime>,
    pub until: Option<SystemTime>,
}

impl LogOptions {
    /// Both streams, followed, with timestamps, from the start.
    pub fn follow_all() -> (r: Self)
        ensures
            r.stdout && r.stderr && r.follow && r.timestamps,
            r.tail is None && r.since is None && r.until is None,
    {
        LogOptions {
            stdout: true,
            stderr: true,
            follow: true,
            timestamps: true,
            tail: None,
            since: None,
            until: None,
        }
    }

    /// The last `n` lines of both streams, without following or timestamps.
    pub fn tail(n: u64) -> (r: Self)
        ensures
            r.stdout && r.stderr && !r.follow && !r.timestamps,
            r.tail == Some(n),
            r.since is None && r.until is None,
    {
        LogOptions {
            stdout: true,
            stderr: true,
            follow: false,
            timestamps: false,
            tail: Some(n),
            since: None,
            until: None,
        }
    }
}

/// Which stream a log line came from.
#[derive(Debug, Clone, Copy, PartialEq, Eq, Structural)]
pub enum LogStream {
    Stdout,
    Stderr,
}

/// A single log line from a container.
#[derive(Debug)]
pub struct LogLine {
    pub content: String,
    pub stream: LogStream,
    pub timestamp: Option<SystemTime>,
}

/// Network protocol of a port.
#[derive(Debug, Clone, Copy, PartialEq, Eq, Structural)]
pub enum Protocol {
    Tcp,
    Udp,
}

/// A published port.
#[derive(Debug)]
pub struct PortMapping {
    pub host_port: Option<u16>,
    pub container_port: u16,
    pub protocol: Protocol,
    pub host_ip: Option<String>,
}

/// A bind mount.
#[derive(Debug)]
pub struct VolumeMount {
    pub source: String,
    pub target: String,
    pub read_only: bool,
}

/// Restart policy as the runtime API takes it.
#[derive(Debug, Clone, Copy, PartialEq, Eq, Structural)]
pub enum RestartPolicyConfig {
    No,
    Always,
    UnlessStopped,
    OnFailure { max_retries: Option<u32> },
}

/// The runtime's form of a configured restart policy.
pub open spec fn spec_restart_policy_config(p: RestartPolicy) -> RestartPolicyConfig {
    match p {
        RestartPolicy::No => RestartPolicyConfig::No,
        RestartPolicy::Always => RestartPolicyConfig::Always,
        RestartPolicy::UnlessStopped => RestartPolicyConfig::UnlessStopped,
        RestartPolicy::OnFailure { max_retries } => RestartPolicyConfig::OnFailure { max_retries },
    }
}

impl RestartPolicyConfig {
    pub fn from_policy(p: &RestartPolicy) -> (r: Self)
        ensures
            r == spec_restart_policy_config(*p),
    {
        match p {
            RestartPolicy::No => RestartPolicyConfig::No,
            RestartPolicy::Always => RestartPolicyConfig::Always,
            RestartPolicy::UnlessStopped => RestartPolicyConfig::UnlessStopped,
            RestartPolicy::OnFailure { max_retries } => RestartPolicyConfig::OnFailure {
                max_retries: *max_retries,
            },
        }
    }
}

/// Resource limits; the CPU quota is kept as written and read as a number by
/// the runtime backend.
#[derive(Debug)]
pub struct ResourceLimits {
    /// Memory limit in bytes.
    pub memory: Option<u64>,
    /// CPU quota as written (`1.0` = one CPU).
    pub cpus: Option<String>,
}

/// Healthcheck settings as the runtime API takes them.
#[derive(Debug)]
pub struct HealthcheckConfig {
    pub test: Vec<String>,
    pub interval: Duration,
    pub timeout: Duration,
    pub retries: u32,
    pub start_period: Duration,
}

/// Configuration for creating a container.
#[derive(Debug)]
pub struct ContainerConfig {
    pub name: String,
    pub image: ImageRef,
    pub env: StrMap<String>,
    pub labels: StrMap<String>,
    pub ports: Vec<PortMapping>,
    pub volumes: Vec<VolumeMount>,
    pub command: Option<Vec<String>>,
    pub entrypoint: Option<Vec<String>>,
    pub working_dir: Option<String>,
    pub user: Option<String>,
    pub restart_policy: RestartPolicyConfig,
    pub resources: Option<ResourceLimits>,
    pub healthcheck: Option<HealthcheckConfig>,
    pub stop_timeout: Option<Duration>,
    pub network: Option<String>,
    pub network_aliases: Vec<NetworkAlias>,
}

/// Container state.
#[derive(Debug, Clone, Copy, PartialEq, Eq, Structural)]
pub enum ContainerState {
    Created,
    Running,
    Paused,
    Restarting,
    Removing,
    Exited,
    Dead,
}

/// Health state of a container.
#[derive(Debug, Clone, Copy, PartialEq, Eq, Structural)]
pub enum HealthState {
    Starting,
    Healthy,
    Unhealthy,
    NotReported,
}

/// A container's endpoint on one network.
#[derive(Debug)]
pub struct NetworkInfo {
    pub network_id: String,
    pub ip_address: String,
    pub gateway: String,
    pub aliases: Vec<String>,
}

/// Network settings for a container, by network name.
#[derive(Debug)]
pub struct NetworkSettings {
    pub networks: StrMap<NetworkInfo>,
}

/// Information about a container.
#[derive(Debug)]
pub struct ContainerInfo {
    pub id: ContainerId,
    pub name: String,
    pub image: String,
    pub state: ContainerState,
    pub health: Option<HealthState>,
    pub created: String,
    pub labels: StrMap<String>,
    pub network_settings: NetworkSettings,
}

/// Configuration for creating a network.
#[derive(Debug)]
pub struct NetworkConfig {
    pub name: String,
    pub driver: Option<String>,
    pub labels: StrMap<String>,
}

/// Registry authentication credentials.
#[derive(Debug)]
pub struct RegistryAuth {
    pub username: String,
    pub password: String,
    /// Registry server (e.g. `ghcr.io`).
    pub server: Option<String>,
}

/// Runtime metadata.
#[derive(Debug)]
pub struct RuntimeMetadata {
    pub name: String,
    pub version: String,
    pub api_version: String,
    pub os: String,
    pub arch: String,
}

/// Settings for running a command inside a container.
#[derive(Debug)]
pub struct ExecConfig {
    pub cmd: Vec<String>,
    pub env: Vec<String>,
    pub working_dir: Option<String>,
    pub user: Option<String>,
    pub attach_stdin: bool,
    pub attach_stdout: bool,
    pub attach_stderr: bool,
    pub tty: bool,
    pub privileged: bool,
}

impl ExecConfig {
    /// Runs `cmd` with stdout and stderr attached, nothing else.
    pub fn for_command(cmd: Vec<String>) -> (r: Self)
        ensures
            r.cmd == cmd,
            r.env@.len() == 0,
            r.working_dir is None && r.user is None,
            !r.attach_stdin && r.attach_stdout && r.attach_stderr,
            !r.tty && !r.privileged,
    {
        ExecConfig {
            cmd,
            env: Vec::new(),
            working_dir: None,
            user: None,
            attach_stdin: false,
            attach_stdout: true,
            attach_stderr: true,
            tty: false,
            privileged: false,
        }
    }
}

impl Default for ExecConfig {
    fn default() -> (r: Self)
        ensures
            r.cmd@.len() == 0,
            r.env@.len() == 0,
            r.working_dir is None && r.user is None,
            !r.attach_stdin && r.attach_stdout && r.attach_stderr,
            !r.tty && !r.privileged,
    {
        ExecConfig::for_command(Vec::new())
    }
}

/// Result of an exec operation.
#[derive(Debug)]
pub struct ExecResult {
    pub exit_code: i64,
    pub stdout: Vec<u8>,
    pub stderr: Vec<u8>,
}

/// Exec instance information.
#[derive(Debug)]
pub struct ExecInfo {
    pub id: String,
    pub running: bool,
    pub exit_code: Option<i64>,
    pub container_id: ContainerId,
}

} // verus!
