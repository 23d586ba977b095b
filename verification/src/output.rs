//! What the command line tells its user, by mode: everything, only results
//! (for CI), or JSON lines (for scripts).
use crate::text::join2;
use std::time::{Duration, Instant};
use vstd::prelude::*;

verus! {

#[verifier::external_type_specification]
#[verifier::external_body]
pub struct ExInstant(Instant);

/// `Instant::now`: the current reading of the monotonic clock.
#[verifier::external_body]
fn instant_now() -> (r: Instant) {
    Instant::now()
}

/// `Instant::elapsed`: the time since `t`, which the clock decides.
#[verifier::external_body]
fn instant_elapsed(t: &Instant) -> (r: Duration) {
    t.elapsed()
}

/// How much the command line says.
#[derive(Debug, Clone, Copy, PartialEq, Eq, Structural)]
pub enum OutputMode {
    /// Progress messages and results, for people.
    Normal,
    /// Results only, for CI.
    Quiet,
    /// JSON lines, for scripts.
    Json,
}

/// The command line's output settings, with an optional running timer.
#[derive(Debug)]
pub struct Output {
    mode: OutputMode,
    start_time: Option<Instant>,
}

impl Output {
    pub closed spec fn spec_mode(&self) -> OutputMode {
        self.mode
    }

    /// Whether the timer was started.
    pub closed spec fn spec_timing(&self) -> bool {
        self.start_time is Some
    }

    /// Output in `mode`, with no timer running.
    pub fn new(mode: OutputMode) -> (r: Self)
        ensures
            r.spec_mode() == mode,
            !r.spec_timing(),
    {
        Output { mode, start_time: None }
    }

    /// Starts (or restarts) timing the operation.
    pub fn start_timer(&mut self)
        ensures
            final(self).spec_mode() == old(self).spec_mode(),
            final(self).spec_timing(),
    {
        self.start_time = Some(instant_now());
    }

    pub fn mode(&self) -> (r: OutputMode)
        ensures
            r == self.spec_mode(),
    {
        self.mode
    }

    /// The time since the timer started, if it did.
    pub fn elapsed(&self) -> (r: Option<Duration>)
        ensures
            r is Some <==> self.spec_timing(),
    {
        match &self.start_time {
            Some(t) => Some(instant_elapsed(t)),
            None => None,
        }
    }

    /// Whether progress messages are shown: only in normal mode.
    pub fn shows_progress(&self) -> (r: bool)
        ensures
            r == (self.spec_mode() == OutputMode::Normal),
    {
        self.mode == OutputMode::Normal
    }

    /// The line an error is reported with outside JSON mode.
    pub fn error_text(message: &str) -> (r: String)
        ensures
            r@ == "Error: "@ + message@,
    {
        join2("Error: ", message)
    }
}

} // verus!
