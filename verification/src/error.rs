//! Application-wide errors, and the process exit code each one maps to.
use crate::deploy::{DeployError, DeployErrorKind};
use crate::runtime::{RuntimeError, RuntimeErrorKind};
use crate::text::{join2, own};
use vstd::prelude::*;

verus! {

/// A failure of a peleka command.
#[derive(Debug)]
pub enum Error {
    AlreadyExists(String),
    ConfigNotFound(String),
    UnknownDestination(String),
    MissingEnvVar(String),
    InvalidConfig(String),
    Io(String),
    Yaml(String),
    Ssh(crate::ssh::Error),
    RuntimeDetection(String),
    Runtime(RuntimeError),
    Deploy(DeployError),
    NoServers,
    Hook(String),
}

/// The message that `Display` writes for an error.
pub open spec fn error_text(e: Error) -> Seq<char> {
    match e {
        Error::AlreadyExists(p) => "file already exists: "@ + p@,
        Error::ConfigNotFound(p) => "configuration file not found in "@ + p@,
        Error::UnknownDestination(d) => "unknown destination: "@ + d@,
        Error::MissingEnvVar(v) => "missing required environment variable: "@ + v@,
        Error::InvalidConfig(m) => "invalid configuration: "@ + m@,
        Error::Io(m) => "I/O error: "@ + m@,
        Error::Yaml(m) => "YAML parse error: "@ + m@,
        Error::Ssh(e) => "SSH error: "@ + crate::ssh::error::ssh_error_text(e),
        Error::RuntimeDetection(m) => "runtime detection failed: "@ + m@,
        Error::Runtime(e) => crate::runtime::error::runtime_error_text(e),
        Error::Deploy(e) => "deployment failed: "@ + crate::deploy::error::deploy_error_text(e@),
        Error::NoServers => "no servers configured"@,
        Error::Hook(m) => "hook failed: "@ + m@,
    }
}

/// The documented exit code of each failure.
pub open spec fn spec_exit_code(e: Error) -> i32 {
    match e {
        Error::Deploy(d) => match crate::deploy::error::detail_kind(d@) {
            DeployErrorKind::LockHeld => 2,
            DeployErrorKind::HealthCheckTimeout => 3,
            DeployErrorKind::NoPreviousDeployment => 4,
            DeployErrorKind::ImagePullTimeout => 10,
            _ => 1,
        },
        Error::Ssh(_) => 5,
        Error::ConfigNotFound(_) => 6,
        Error::NoServers => 7,
        Error::RuntimeDetection(_) => 8,
        Error::Runtime(r) => match crate::runtime::error::spec_runtime_error_kind(r) {
            RuntimeErrorKind::NoRuntimeFound => 8,
            RuntimeErrorKind::SshError => 5,
            RuntimeErrorKind::ConnectionFailed => 9,
            RuntimeErrorKind::RuntimeOperation => 9,
        },
        _ => 1,
    }
}

impl Error {
    /// The deployment error, if this is a `Deploy` error.
    pub fn as_deploy_error(&self) -> (r: Option<&DeployError>)
        ensures
            match *self {
                Error::Deploy(d) => r == Some(&d),
                _ => r is None,
            },
    {
        match self {
            Error::Deploy(e) => Some(e),
            _ => None,
        }
    }

    /// The SSH error, if this is an `Ssh` error.
    pub fn as_ssh_error(&self) -> (r: Option<&crate::ssh::Error>)
        ensures
            match *self {
                Error::Ssh(s) => r == Some(&s),
                _ => r is None,
            },
    {
        match self {
            Error::Ssh(e) => Some(e),
            _ => None,
        }
    }

    /// The process exit code for this failure: 2 deployment locked, 3 health
    /// check timeout, 4 no previous deployment, 5 SSH failure, 6 configuration
    /// not found, 7 no servers, 8 no container runtime, 9 runtime connection
    /// failed, 10 image pull timeout, 1 anything else.
    pub fn exit_code(&self) -> (r: i32)
        ensures
            r == spec_exit_code(*self),
    {
        match self {
            Error::Deploy(d) => match d.kind() {
                DeployErrorKind::LockHeld => 2,
                DeployErrorKind::HealthCheckTimeout => 3,
                DeployErrorKind::NoPreviousDeployment => 4,
                DeployErrorKind::ImagePullTimeout => 10,
                _ => 1,
            },
            Error::Ssh(_) => 5,
            Error::ConfigNotFound(_) => 6,
            Error::NoServers => 7,
            Error::RuntimeDetection(_) => 8,
            Error::Runtime(r) => match r.kind() {
                RuntimeErrorKind::NoRuntimeFound => 8,
                RuntimeErrorKind::SshError => 5,
                RuntimeErrorKind::ConnectionFailed => 9,
                RuntimeErrorKind::RuntimeOperation => 9,
            },
            _ => 1,
        }
    }

    /// The message that `Display` writes for this error.
    pub fn to_string(&self) -> (r: String)
        ensures
            r@ == error_text(*self),
    {
        match self {
            Error::AlreadyExists(p) => join2("file already exists: ", p.as_str()),
            Error::ConfigNotFound(p) => join2("configuration file not found in ", p.as_str()),
            Error::UnknownDestination(d) => join2("unknown destination: ", d.as_str()),
            Error::MissingEnvVar(v) => join2("missing required environment variable: ", v.as_str()),
            Error::InvalidConfig(m) => join2("invalid configuration: ", m.as_str()),
            Error::Io(m) => join2("I/O error: ", m.as_str()),
            Error::Yaml(m) => join2("YAML parse error: ", m.as_str()),
            Error::Ssh(e) => {
                let m = e.to_string();
                join2("SSH error: ", m.as_str())
            },
            Error::RuntimeDetection(m) => join2("runtime detection failed: ", m.as_str()),
            Error::Runtime(e) => e.to_string(),
            Error::Deploy(e) => {
                let m = e.to_string();
                join2("deployment failed: ", m.as_str())
            },
            Error::NoServers => own("no servers configured"),
            Error::Hook(m) => join2("hook failed: ", m.as_str()),
        }
    }
}

} // verus!
