//! Waiting for a new container to become healthy. The checks are run actively,
//! since some runtimes (rootless Podman without systemd) do not run them on
//! their own. During the start period failures are tolerated; afterwards each
//! failure uses up one retry, and one failure more than the retries allow ends
//! the deployment, as does running out of time.
use crate::config::HealthcheckConfig;
use crate::deploy::error::{DeployError, DeployErrorDetail};
use crate::text::{join2, own};
use crate::time::{as_secs, duration_secs, is_zero};
use std::time::Duration;
use vstd::prelude::*;

verus! {

/// What one run of the health check command came to.
#[derive(Debug)]
pub enum HealthPoll {
    /// The command succeeded.
    Healthy,
    /// The command ran and reported failure.
    Unhealthy,
    /// The command could not be run; the runtime's message.
    ExecFailed(String),
    /// The command did not finish within the health check's timeout.
    Timeout,
}

/// What happened since the last step.
#[derive(Debug)]
pub enum HealthEvent {
    /// The command was run.
    Polled(HealthPoll),
    /// The current window closed before another run: the start period, or the
    /// time allowed for the whole check.
    WindowClosed,
}

/// What to do next.
#[derive(Debug)]
pub enum HealthAction {
    /// The container is healthy.
    Healthy,
    /// Wait the check's interval, then run the command again.
    PollAfterInterval,
    /// The start period is over: run the command again at once, and from now
    /// on count failures against the time allowed for the check.
    PollNow,
    /// The check failed; roll back.
    Failed(DeployError),
}

/// An action as plain values.
pub enum HealthOutcome {
    Healthy,
    PollAfterInterval,
    PollNow,
    FailedWith(Seq<char>),
    TimedOut(u64),
    Other,
}

/// The state of a health check in progress.
#[derive(Debug, Clone, Copy, PartialEq, Eq, Structural)]
pub struct HealthCheck {
    /// Whether the start period is still running.
    pub in_start_period: bool,
    /// Failures still tolerated after the start period.
    pub retries_remaining: u32,
    /// The seconds allowed for the check after the start period.
    pub timeout_secs: u64,
}

/// Why a failed run failed, as the error reports it.
pub open spec fn failure_reason(p: HealthPoll) -> Seq<char> {
    match p {
        HealthPoll::Healthy => Seq::empty(),
        HealthPoll::Unhealthy => "container reported unhealthy"@,
        HealthPoll::ExecFailed(e) => "healthcheck exec failed: "@ + e@,
        HealthPoll::Timeout => "healthcheck command timed out"@,
    }
}

/// The plain form of an action.
pub open spec fn outcome_of(a: HealthAction) -> HealthOutcome {
    match a {
        HealthAction::Healthy => HealthOutcome::Healthy,
        HealthAction::PollAfterInterval => HealthOutcome::PollAfterInterval,
        HealthAction::PollNow => HealthOutcome::PollNow,
        HealthAction::Failed(e) => match e@ {
            DeployErrorDetail::HealthCheckFailed { message } => HealthOutcome::FailedWith(message@),
            DeployErrorDetail::HealthCheckTimeout { seconds } => HealthOutcome::TimedOut(seconds),
            _ => HealthOutcome::Other,
        },
    }
}

/// One step of the check: the next state and what to do.
pub open spec fn next(s: HealthCheck, e: HealthEvent) -> (HealthCheck, HealthOutcome) {
    match e {
        HealthEvent::Polled(HealthPoll::Healthy) => (s, HealthOutcome::Healthy),
        HealthEvent::Polled(p) => if s.in_start_period {
            (s, HealthOutcome::PollAfterInterval)
        } else if s.retries_remaining == 0 {
            (s, HealthOutcome::FailedWith(failure_reason(p)))
        } else {
            (
                HealthCheck { retries_remaining: (s.retries_remaining - 1) as u32, ..s },
                HealthOutcome::PollAfterInterval,
            )
        },
        HealthEvent::WindowClosed => if s.in_start_period {
            (HealthCheck { in_start_period: false, ..s }, HealthOutcome::PollNow)
        } else {
            (s, HealthOutcome::TimedOut(s.timeout_secs))
        },
    }
}

/// The outcomes of a run of events, each step starting where the last ended.
pub open spec fn run(s: HealthCheck, events: Seq<HealthEvent>) -> Seq<HealthOutcome>
    decreases events.len(),
{
    if events.len() == 0 {
        Seq::empty()
    } else {
        let (s2, o) = next(s, events[0]);
        seq![o] + run(s2, events.drop_first())
    }
}

/// The command run in the container: its shell, given the configured command.
pub fn healthcheck_command(h: &HealthcheckConfig) -> (r: Vec<String>)
    ensures
        r@.len() == 3,
        r@[0]@ == "sh"@,
        r@[1]@ == "-c"@,
        r@[2]@ == h.cmd@,
{
    let mut v: Vec<String> = Vec::new();
    v.push(own("sh"));
    v.push(own("-c"));
    v.push(h.cmd.clone());
    v
}

impl HealthCheck {
    /// A check of `h` allowed `timeout` after its start period; a zero start
    /// period starts counting at once.
    pub fn new(h: &HealthcheckConfig, timeout: Duration) -> (r: Self)
        ensures
            r.in_start_period == (duration_secs(h.start_period) != 0 || crate::time::duration_subsec_nanos(
                h.start_period,
            ) != 0),
            r.retries_remaining == h.retries,
            r.timeout_secs == duration_secs(timeout),
    {
        HealthCheck {
            in_start_period: !is_zero(h.start_period),
            retries_remaining: h.retries,
            timeout_secs: as_secs(timeout),
        }
    }

    /// Takes the next event and says what to do.
    pub fn step(&mut self, event: HealthEvent) -> (a: HealthAction)
        ensures
            (*final(self), outcome_of(a)) == next(*old(self), event),
    {
        match event {
            HealthEvent::Polled(HealthPoll::Healthy) => HealthAction::Healthy,
            HealthEvent::Polled(p) => {
                if self.in_start_period {
                    HealthAction::PollAfterInterval
                } else if self.retries_remaining == 0 {
                    let reason = match p {
                        HealthPoll::Unhealthy => own("container reported unhealthy"),
                        HealthPoll::ExecFailed(e) => join2("healthcheck exec failed: ", e.as_str()),
                        _ => own("healthcheck command timed out"),
                    };
                    HealthAction::Failed(DeployError::health_check_failed(reason))
                } else {
                    self.retries_remaining = self.retries_remaining - 1;
                    HealthAction::PollAfterInterval
                }
            },
            HealthEvent::WindowClosed => {
                if self.in_start_period {
                    self.in_start_period = false;
                    HealthAction::PollNow
                } else {
                    HealthAction::Failed(DeployError::health_check_timeout(self.timeout_secs))
                }
            },
        }
    }
}

/// A failed run.
pub open spec fn is_failure(e: HealthEvent) -> bool {
    e matches HealthEvent::Polled(p) && !(p is Healthy)
}

/// Leaving the start period changes nothing but the phase: the check runs again
/// at once with every configured retry still available, so that with retries
/// left the first failure after the start period is tried again after the
/// interval, costing one retry.
pub proof fn lemma_start_period_end_keeps_retries(s: HealthCheck)
    requires
        s.in_start_period,
    ensures
        next(s, HealthEvent::WindowClosed).0 == (HealthCheck { in_start_period: false, ..s }),
        next(s, HealthEvent::WindowClosed).1 == HealthOutcome::PollNow,
        next(s, HealthEvent::WindowClosed).0.retries_remaining == s.retries_remaining,
        s.retries_remaining > 0 ==> next(next(s, HealthEvent::WindowClosed).0, HealthEvent::Polled(HealthPoll::Unhealthy))
            == (HealthCheck { in_start_period: false, retries_remaining: (s.retries_remaining - 1) as u32, ..s },
            HealthOutcome::PollAfterInterval),
{
}

/// After the start period, with `k` retries left, `k` failed runs in a row are
/// each followed by another try, and the next failed run ends the check with
/// that run's reason.
pub proof fn lemma_fails_after_retries(s: HealthCheck, events: Seq<HealthEvent>)
    requires
        !s.in_start_period,
        events.len() == s.retries_remaining + 1,
        forall|i: int| 0 <= i < events.len() ==> is_failure(#[trigger] events[i]),
    ensures
        run(s, events).len() == events.len(),
        forall|i: int| 0 <= i < s.retries_remaining ==> #[trigger] run(s, events)[i] is PollAfterInterval,
        run(s, events)[s.retries_remaining as int] == HealthOutcome::FailedWith(
            failure_reason(events.last()->Polled_0),
        ),
    decreases events.len(),
{
    let e0 = events[0];
    assert(is_failure(e0));
    if s.retries_remaining == 0 {
        assert(events.drop_first().len() == 0);
        assert(run(s, events) =~= seq![next(s, e0).1] + run(next(s, e0).0, events.drop_first()));
    } else {
        let s2 = next(s, e0).0;
        let rest = events.drop_first();
        assert forall|i: int| 0 <= i < rest.len() implies is_failure(#[trigger] rest[i]) by {
            assert(rest[i] == events[i + 1]);
        }
        lemma_fails_after_retries(s2, rest);
        assert(rest.last() == events.last());
        let r = run(s, events);
        assert(r == seq![next(s, e0).1] + run(s2, rest));
        assert forall|i: int| 0 <= i < s.retries_remaining implies #[trigger] r[i] is PollAfterInterval by {
            if i > 0 {
                assert(r[i] == run(s2, rest)[i - 1]);
            }
        }
        assert(r[s.retries_remaining as int] == run(s2, rest)[s.retries_remaining - 1]);
    }
}

/// During the start period a failed run costs no retry: the check tries again
/// after the interval, with as many retries as before.
pub proof fn lemma_start_period_tolerates_failures(s: HealthCheck, e: HealthEvent)
    requires
        s.in_start_period,
        is_failure(e),
    ensures
        next(s, e).0 == s,
        next(s, e).1 is PollAfterInterval,
{
}

/// A healthy run ends the check successfully in every state.
pub proof fn lemma_healthy_succeeds(s: HealthCheck)
    ensures
        next(s, HealthEvent::Polled(HealthPoll::Healthy)).1 is Healthy,
{
}

} // verus!
