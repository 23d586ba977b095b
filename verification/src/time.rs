//! Durations, seen through their whole seconds and sub-second nanoseconds.
use std::time::Duration;
use vstd::prelude::*;

verus! {

/// A UTC instant: whole seconds since the Unix epoch and the nanoseconds beyond
/// (more than a second's worth only within a leap second).
#[derive(Debug, Clone, Copy, PartialEq, Eq, Structural)]
pub struct Timestamp {
    pub secs: i64,
    pub nanos: u32,
}

/// The current UTC time (`chrono::Utc::now`); the nanoseconds exceed a second
/// only during a leap second.
#[verifier::external_body]
pub(crate) fn now() -> (r: Timestamp)
    ensures
        r.nanos < 2_000_000_000,
{
    let t = chrono::Utc::now();
    Timestamp { secs: t.timestamp(), nanos: t.timestamp_subsec_nanos() }
}

/// What `Display` of the UTC instant `t` (`chrono::DateTime<Utc>`) writes,
/// such as `2024-01-15 10:00:00 UTC`; empty for an instant chrono cannot
/// represent.
pub uninterp spec fn utc_display(t: Timestamp) -> Seq<char>;

/// `Display` of a UTC instant (`chrono::DateTime<Utc>`).
#[verifier::external_body]
pub(crate) fn utc_text(t: &Timestamp) -> (r: String)
    ensures
        r@ == utc_display(*t),
{
    chrono::DateTime::from_timestamp(t.secs, t.nanos).map(|d| d.to_string()).unwrap_or_default()
}

/// What `Duration::as_secs` returns for `d`.
pub uninterp spec fn duration_secs(d: Duration) -> nat;

/// What `Duration::subsec_nanos` returns for `d`.
pub uninterp spec fn duration_subsec_nanos(d: Duration) -> nat;

/// A duration of exactly `n` seconds.
pub open spec fn is_whole_secs(d: Duration, n: nat) -> bool {
    duration_secs(d) == n && duration_subsec_nanos(d) == 0
}

/// `Duration::from_secs`: a duration of `n` whole seconds.
#[verifier::external_body]
pub(crate) fn secs(n: u64) -> (d: Duration)
    ensures
        duration_secs(d) == n,
        duration_subsec_nanos(d) == 0,
{
    Duration::from_secs(n)
}

/// `Duration::as_secs`: the whole seconds of `d`.
#[verifier::external_body]
pub(crate) fn as_secs(d: Duration) -> (r: u64)
    ensures
        r == duration_secs(d),
{
    d.as_secs()
}

/// `Duration::subsec_nanos`: the nanoseconds beyond the whole seconds of `d`.
#[verifier::external_body]
pub(crate) fn subsec_nanos(d: Duration) -> (r: u32)
    ensures
        r == duration_subsec_nanos(d),
        r < 1_000_000_000,
{
    d.subsec_nanos()
}

/// `Duration::is_zero`.
pub fn is_zero(d: Duration) -> (r: bool)
    ensures
        r == (duration_secs(d) == 0 && duration_subsec_nanos(d) == 0),
{
    as_secs(d) == 0 && subsec_nanos(d) == 0
}

} // verus!
