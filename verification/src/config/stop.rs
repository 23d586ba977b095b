//! How containers are stopped: grace timeout and signal.
use crate::strmap::Duplicate;
use crate::text::own;
use crate::time::{is_whole_secs, secs};
use std::time::Duration;
use vstd::prelude::*;

verus! {

/// Graceful shutdown configuration.
#[derive(Debug)]
pub struct StopConfig {
    pub timeout: Duration,
    pub signal: String,
}

/// Thirty seconds unless configured.
pub fn default_timeout() -> (r: Duration)
    ensures
        is_whole_secs(r, 30),
{
    secs(30)
}

/// `SIGTERM` unless configured.
pub fn default_signal() -> (r: String)
    ensures
        r@ == "SIGTERM"@,
{
    own("SIGTERM")
}

impl Default for StopConfig {
    fn default() -> (r: Self)
        ensures
            is_whole_secs(r.timeout, 30),
            r.signal@ == "SIGTERM"@,
    {
        StopConfig { timeout: default_timeout(), signal: default_signal() }
    }
}

impl Duplicate for StopConfig {
    fn duplicate(&self) -> (r: Self) {
        StopConfig { timeout: self.timeout, signal: self.signal.clone() }
    }
}

} // verus!
