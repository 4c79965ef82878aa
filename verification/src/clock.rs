//! The system clock and spans of time.
use vstd::prelude::*;

verus! {

/// Milliseconds since the Unix epoch by `SystemTime::now`, or 0 when the clock is set before it.
/// The contract says nothing of the value: it depends on the time of the call.
#[verifier::external_body]
pub(crate) fn now_millis() -> u64 {
    match std::time::SystemTime::now().duration_since(std::time::UNIX_EPOCH) {
        Ok(d) => d.as_millis() as u64,
        Err(_) => 0,
    }
}

/// What `Duration::from_secs` returns for a number of whole seconds.
pub uninterp spec fn secs_duration(secs: u64) -> std::time::Duration;

/// What `Duration::from_millis` returns for a number of milliseconds.
pub uninterp spec fn millis_duration(millis: u64) -> std::time::Duration;

/// Calls `Duration::from_secs`; the contract ties the span to its number of seconds by the
/// name `secs_duration`.
#[verifier::external_body]
pub(crate) fn duration_from_secs(secs: u64) -> (r: std::time::Duration)
    ensures
        r == secs_duration(secs),
{
    std::time::Duration::from_secs(secs)
}

/// Calls `Duration::from_millis`; the contract ties the span to its number of milliseconds by
/// the name `millis_duration`.
#[verifier::external_body]
pub(crate) fn duration_from_millis(millis: u64) -> (r: std::time::Duration)
    ensures
        r == millis_duration(millis),
{
    std::time::Duration::from_millis(millis)
}

} // verus!
