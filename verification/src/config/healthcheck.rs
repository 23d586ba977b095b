//! The health check a container runs: a shell command (exit code 0 means
//! healthy) with its timing.
use crate::strmap::Duplicate;
use crate::time::secs;
use crate::time::is_whole_secs;
use std::time::Duration;
use vstd::prelude::*;

verus! {

/// Health check configuration.
#[derive(Debug)]
pub struct HealthcheckConfig {
    /// Shell command run inside the container; exit code 0 means healthy.
    pub cmd: String,
    pub interval: Duration,
    pub timeout: Duration,
    pub retries: u32,
    pub start_period: Duration,
}

impl Duplicate for HealthcheckConfig {
    fn duplicate(&self) -> (r: Self) {
        HealthcheckConfig {
            cmd: self.cmd.clone(),
            interval: self.interval,
            timeout: self.timeout,
            retries: self.retries,
            start_period: self.start_period,
        }
    }
}

/// Ten seconds between checks unless configured.
pub fn default_interval() -> (r: Duration)
    ensures
        is_whole_secs(r, 10),
{
    secs(10)
}

/// Five seconds for each check unless configured.
pub fn default_timeout() -> (r: Duration)
    ensures
        is_whole_secs(r, 5),
{
    secs(5)
}

/// Three retries unless configured.
pub fn default_retries() -> (r: u32)
    ensures
        r == 3,
{
    3
}

/// Thirty seconds of start period unless configured.
pub fn default_start_period() -> (r: Duration)
    ensures
        is_whole_secs(r, 30),
{
    secs(30)
}

} // verus!
