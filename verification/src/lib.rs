//! Verified core of a zero-downtime container deployment tool for Docker and
//! Podman: configuration, validated names, deployment decisions and the
//! protocols that drive remote runtimes over SSH.
use vstd::prelude::*;

pub mod strmap;
pub mod text;
pub mod time;
pub mod types;
pub mod runtime;
pub mod config;
pub mod ssh;
pub mod deploy;
pub mod error;
pub mod diagnostics;
pub mod hooks;
pub mod output;
pub mod cli;
