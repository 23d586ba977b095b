//! Which container runtime a server runs, and where its API socket is.
use crate::text::own;
use vstd::prelude::*;

verus! {

/// The container runtime type.
#[derive(Debug, Clone, Copy, PartialEq, Eq, Structural)]
pub enum RuntimeType {
    Docker,
    Podman,
}

impl RuntimeType {
    /// The lower-case name, as `Display` writes it.
    pub fn to_string(&self) -> (r: String)
        ensures
            r@ == runtime_name(*self),
    {
        match self {
            RuntimeType::Docker => own("docker"),
            RuntimeType::Podman => own("podman"),
        }
    }
}

pub open spec fn runtime_name(t: RuntimeType) -> Seq<char> {
    match t {
        RuntimeType::Docker => "docker"@,
        RuntimeType::Podman => "podman"@,
    }
}

/// The socket a runtime listens on when nothing else is configured.
pub open spec fn spec_default_socket_path(t: RuntimeType) -> Seq<char> {
    match t {
        RuntimeType::Docker => "/var/run/docker.sock"@,
        RuntimeType::Podman => "/run/podman/podman.sock"@,
    }
}

/// The default socket path of a runtime.
pub fn default_socket_path(runtime: RuntimeType) -> (r: String)
    ensures
        r@ == spec_default_socket_path(runtime),
{
    match runtime {
        RuntimeType::Docker => own("/var/run/docker.sock"),
        RuntimeType::Podman => own("/run/podman/podman.sock"),
    }
}

/// Detected runtime information.
#[derive(Debug)]
pub struct RuntimeInfo {
    /// The type of runtime detected.
    pub runtime_type: RuntimeType,
    /// Path to the runtime socket.
    pub socket_path: String,
}

/// Configuration for an explicit runtime override.
#[derive(Debug)]
pub struct RuntimeConfig {
    /// Explicit runtime type (overrides auto-detection).
    pub runtime: Option<RuntimeType>,
    /// Explicit socket path (overrides the default).
    pub socket: Option<String>,
}

impl RuntimeConfig {
    /// No override at all.
    pub fn empty() -> (r: Self)
        ensures
            r.runtime is None,
            r.socket is None,
    {
        RuntimeConfig { runtime: None, socket: None }
    }
}

} // verus!
