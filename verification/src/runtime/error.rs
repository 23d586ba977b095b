//! Errors of runtime detection and connection, with a kind for programmatic
//! handling.
use crate::runtime::traits::RuntimeInfoError;
use crate::text::{join2, own};
use vstd::prelude::*;

verus! {

/// Error during runtime detection.
#[derive(Debug)]
pub enum DetectionError {
    NoRuntimeFound,
    Ssh(crate::ssh::Error),
}

impl DetectionError {
    /// The message that `Display` writes for this error.
    pub fn to_string(&self) -> (r: String)
        ensures
            r@ == detection_error_text(*self),
    {
        match self {
            DetectionError::NoRuntimeFound => own(
                "no container runtime found (checked Podman and Docker sockets)",
            ),
            DetectionError::Ssh(e) => {
                let m = e.to_string();
                join2("SSH error: ", m.as_str())
            },
        }
    }
}

/// The message that `Display` writes for a detection error.
pub open spec fn detection_error_text(e: DetectionError) -> Seq<char> {
    match e {
        DetectionError::NoRuntimeFound => "no container runtime found (checked Podman and Docker sockets)"@,
        DetectionError::Ssh(s) => "SSH error: "@ + crate::ssh::error::ssh_error_text(s),
    }
}

/// The message that `Display` writes for a runtime error.
pub open spec fn runtime_error_text(e: RuntimeError) -> Seq<char> {
    match e {
        RuntimeError::Detection { source } => "runtime detection failed: "@ + detection_error_text(source),
        RuntimeError::Connection { source } => "runtime connection failed: "@
            + crate::runtime::traits::runtime_info_error_text(source),
    }
}

/// Unified runtime error for detection and connection failures.
#[derive(Debug)]
pub enum RuntimeError {
    Detection { source: DetectionError },
    Connection { source: RuntimeInfoError },
}

/// Error kind for programmatic handling.
#[derive(Debug, Clone, Copy, PartialEq, Eq, Structural)]
pub enum RuntimeErrorKind {
    NoRuntimeFound,
    SshError,
    ConnectionFailed,
    RuntimeOperation,
}

pub open spec fn spec_runtime_error_kind(e: RuntimeError) -> RuntimeErrorKind {
    match e {
        RuntimeError::Detection { source: DetectionError::NoRuntimeFound } => RuntimeErrorKind::NoRuntimeFound,
        RuntimeError::Detection { source: DetectionError::Ssh(_) } => RuntimeErrorKind::SshError,
        RuntimeError::Connection { source: RuntimeInfoError::ConnectionFailed(_) } => RuntimeErrorKind::ConnectionFailed,
        RuntimeError::Connection { source: RuntimeInfoError::Runtime(_) } => RuntimeErrorKind::RuntimeOperation,
    }
}

impl RuntimeError {
    /// The kind of this error.
    pub fn kind(&self) -> (r: RuntimeErrorKind)
        ensures
            r == spec_runtime_error_kind(*self),
    {
        match self {
            RuntimeError::Detection { source } => match source {
                DetectionError::NoRuntimeFound => RuntimeErrorKind::NoRuntimeFound,
                DetectionError::Ssh(_) => RuntimeErrorKind::SshError,
            },
            RuntimeError::Connection { source } => match source {
                RuntimeInfoError::ConnectionFailed(_) => RuntimeErrorKind::ConnectionFailed,
                RuntimeInfoError::Runtime(_) => RuntimeErrorKind::RuntimeOperation,
            },
        }
    }

    /// The connection error's details, if this is a connection failure.
    pub fn connection_details(&self) -> (r: Option<&str>)
        ensures
            match (r, *self) {
                (Some(s), RuntimeError::Connection { source: RuntimeInfoError::ConnectionFailed(m) }) => s@ == m@,
                (None, RuntimeError::Connection { source: RuntimeInfoError::ConnectionFailed(_) }) => false,
                (Some(_), _) => false,
                (None, _) => true,
            },
    {
        match self {
            RuntimeError::Connection { source: RuntimeInfoError::ConnectionFailed(msg) } => Some(
                msg.as_str(),
            ),
            _ => None,
        }
    }

    pub fn from_detection(source: DetectionError) -> (r: Self)
        ensures
            r == (RuntimeError::Detection { source }),
    {
        RuntimeError::Detection { source }
    }

    pub fn from_connection(source: RuntimeInfoError) -> (r: Self)
        ensures
            r == (RuntimeError::Connection { source }),
    {
        RuntimeError::Connection { source }
    }

    /// The message that `Display` writes for this error.
    pub fn to_string(&self) -> (r: String)
        ensures
            r@ == runtime_error_text(*self),
    {
        match self {
            RuntimeError::Detection { source } => {
                let m = source.to_string();
                join2("runtime detection failed: ", m.as_str())
            },
            RuntimeError::Connection { source } => {
                let m = source.to_string();
                join2("runtime connection failed: ", m.as_str())
            },
        }
    }
}

} // verus!
