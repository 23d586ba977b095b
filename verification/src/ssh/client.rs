//! SSH session configuration and command results.
use crate::time::{is_whole_secs, secs};
use std::time::Duration;
use vstd::prelude::*;

verus! {

/// Configuration for establishing an SSH session.
#[derive(Debug)]
pub struct SessionConfig {
    /// Remote host to connect to.
    pub host: String,
    /// SSH port.
    pub port: u16,
    /// Username for authentication.
    pub user: String,
    /// Private key file; without one, the SSH agent and then the default key
    /// files are tried.
    pub key_path: Option<String>,
    /// Whether to accept and remember unknown host keys (Trust On First Use).
    pub trust_on_first_use: bool,
    /// The known_hosts file; without one, `~/.ssh/known_hosts`.
    pub known_hosts_path: Option<String>,
    /// Timeout for each remote command.
    pub command_timeout: Duration,
}

impl SessionConfig {
    /// Port 22, no key file, no Trust On First Use, default known_hosts, and a
    /// five-minute command timeout.
    pub fn new(host: String, user: String) -> (r: Self)
        ensures
            r.host == host,
            r.user == user,
            r.port == 22,
            r.key_path is None,
            !r.trust_on_first_use,
            r.known_hosts_path is None,
            is_whole_secs(r.command_timeout, 300),
    {
        SessionConfig {
            host,
            port: 22,
            user,
            key_path: None,
            trust_on_first_use: false,
            known_hosts_path: None,
            command_timeout: secs(300),
        }
    }

    pub fn port(self, port: u16) -> (r: Self)
        ensures
            r == (SessionConfig { port, ..self }),
    {
        SessionConfig { port, ..self }
    }

    pub fn key_path(self, path: String) -> (r: Self)
        ensures
            r == (SessionConfig { key_path: Some(path), ..self }),
    {
        SessionConfig { key_path: Some(path), ..self }
    }

    pub fn trust_on_first_use(self, tofu: bool) -> (r: Self)
        ensures
            r == (SessionConfig { trust_on_first_use: tofu, ..self }),
    {
        SessionConfig { trust_on_first_use: tofu, ..self }
    }

    pub fn known_hosts_path(self, path: String) -> (r: Self)
        ensures
            r == (SessionConfig { known_hosts_path: Some(path), ..self }),
    {
        SessionConfig { known_hosts_path: Some(path), ..self }
    }

    pub fn command_timeout(self, timeout: Duration) -> (r: Self)
        ensures
            r == (SessionConfig { command_timeout: timeout, ..self }),
    {
        SessionConfig { command_timeout: timeout, ..self }
    }
}

/// Output from a remote command execution.
#[derive(Debug)]
pub struct CommandOutput {
    /// Exit code of the command.
    pub exit_code: u32,
    /// Standard output.
    pub stdout: String,
    /// Standard error.
    pub stderr: String,
}

impl CommandOutput {
    pub fn success(&self) -> (r: bool)
        ensures
            r == (self.exit_code == 0),
    {
        self.exit_code == 0
    }
}

} // verus!
