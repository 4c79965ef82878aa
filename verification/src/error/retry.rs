//! Retry decisions and a circuit breaker against cascading failures.
use vstd::prelude::*;

use super::{YuhaError, retriable};

verus! {

/// The standard library's monotonic clock reading, carried through unchanged.
#[verifier::external_type_specification]
#[verifier::external_body]
pub struct ExInstant(std::time::Instant);

/// Reads the monotonic clock with `Instant::now`; nothing is stated of the reading.
#[verifier::external_body]
fn instant_now() -> std::time::Instant {
    std::time::Instant::now()
}

/// The nanoseconds elapsed since a reading, by `Instant::elapsed` and `Duration::as_nanos`;
/// nothing is stated of the value, which depends on the time of the call.
#[verifier::external_body]
fn elapsed_nanos(since: &std::time::Instant) -> u128 {
    since.elapsed().as_nanos()
}

/// What `Duration::as_nanos` returns for a span: its whole length in nanoseconds.
pub uninterp spec fn duration_nanos(d: std::time::Duration) -> u128;

/// Calls `Duration::as_nanos`; the contract ties the count to the span by the name
/// `duration_nanos`.
#[verifier::external_body]
fn duration_as_nanos(d: &std::time::Duration) -> (r: u128)
    ensures
        r == duration_nanos(*d),
{
    d.as_nanos()
}

/// Whether a failed attempt should be retried: the attempt is below the limit and the error is
/// retriable.
pub fn should_retry(max_attempts: u32, error: &YuhaError, attempt: u32) -> (r: bool)
    ensures
        r == (attempt < max_attempts && retriable(error)),
{
    if attempt >= max_attempts {
        return false;
    }
    error.is_retriable()
}

/// The state of a circuit breaker.
#[derive(Debug, Clone, Copy, PartialEq, Eq, Structural)]
pub enum CircuitState {
    /// Operations pass.
    Closed,
    /// Operations are refused until the timeout has passed since the last failure.
    Open,
    /// One trial operation may pass.
    HalfOpen,
}

/// What a circuit breaker's behaviour depends on.
pub struct CircuitBreakerView {
    /// The current state.
    pub state: CircuitState,
    /// Failures counted since the last reset.
    pub failure_count: u32,
    /// Failures that open the breaker.
    pub failure_threshold: u32,
    /// Whether a failure has been recorded with its time.
    pub failure_recorded: bool,
}

/// The breaker after a recorded success.
pub open spec fn success_step(v: CircuitBreakerView) -> CircuitBreakerView {
    match v.state {
        CircuitState::Open => v,
        _ => CircuitBreakerView { state: CircuitState::Closed, failure_count: 0, ..v },
    }
}

/// The breaker after a recorded failure.
pub open spec fn failure_step(v: CircuitBreakerView) -> CircuitBreakerView {
    let count = (v.failure_count + 1) as u32;
    CircuitBreakerView {
        state: if count >= v.failure_threshold {
            CircuitState::Open
        } else {
            v.state
        },
        failure_count: count,
        failure_threshold: v.failure_threshold,
        failure_recorded: true,
    }
}

/// Whether the breaker lets an operation pass, given whether the timeout has passed since the
/// last failure.
pub open spec fn allows(v: CircuitBreakerView, timeout_elapsed: bool) -> bool {
    match v.state {
        CircuitState::Open => !v.failure_recorded || timeout_elapsed,
        _ => true,
    }
}

/// The breaker after asking whether an operation may pass.
pub open spec fn execute_step(v: CircuitBreakerView, timeout_elapsed: bool) -> CircuitBreakerView {
    match v.state {
        CircuitState::Open => if v.failure_recorded && timeout_elapsed {
            CircuitBreakerView { state: CircuitState::HalfOpen, ..v }
        } else {
            v
        },
        _ => v,
    }
}

/// Whether a span since the last failure reaches the timeout, both in nanoseconds.
pub open spec fn timed_out(since_failure: u128, timeout: u128) -> bool {
    since_failure >= timeout
}

/// A breaker that is open or half-open has counted at least as many failures as its threshold.
pub open spec fn breaker_consistent(v: CircuitBreakerView) -> bool {
    v.state != CircuitState::Closed ==> v.failure_count >= v.failure_threshold
}

/// Every operation of a circuit breaker keeps it consistent: it is open or half-open only after
/// as many failures as its threshold.
pub proof fn lemma_breaker_stays_consistent(v: CircuitBreakerView, timeout_elapsed: bool)
    requires
        breaker_consistent(v),
        v.failure_count < u32::MAX,
    ensures
        breaker_consistent(success_step(v)),
        breaker_consistent(failure_step(v)),
        breaker_consistent(execute_step(v, timeout_elapsed)),
{
}

/// A success changes nothing while the breaker is open.
pub proof fn lemma_success_keeps_open(v: CircuitBreakerView)
    requires
        v.state == CircuitState::Open,
    ensures
        success_step(v) == v,
{
}

/// A breaker as `CircuitBreaker::new` makes it: closed, with no failure counted or recorded.
pub open spec fn fresh_breaker(failure_threshold: u32) -> CircuitBreakerView {
    CircuitBreakerView {
        state: CircuitState::Closed,
        failure_count: 0,
        failure_threshold,
        failure_recorded: false,
    }
}

/// The breaker after `k` failures recorded one after another.
pub open spec fn after_failures(v: CircuitBreakerView, k: nat) -> CircuitBreakerView
    decreases k,
{
    if k == 0 {
        v
    } else {
        failure_step(after_failures(v, (k - 1) as nat))
    }
}

/// A fresh breaker that records `k` failures in a row (at least one) counts `k` of them, and it
/// is open exactly when `k` has reached the threshold: it stays closed before that.
pub proof fn lemma_opens_at_threshold(failure_threshold: u32, k: nat)
    requires
        1 <= k <= u32::MAX,
    ensures
        after_failures(fresh_breaker(failure_threshold), k).failure_count == k,
        after_failures(fresh_breaker(failure_threshold), k).failure_threshold == failure_threshold,
        after_failures(fresh_breaker(failure_threshold), k).failure_recorded,
        after_failures(fresh_breaker(failure_threshold), k).state == if k >= failure_threshold {
            CircuitState::Open
        } else {
            CircuitState::Closed
        },
    decreases k,
{
    let v = fresh_breaker(failure_threshold);
    if k > 1 {
        lemma_opens_at_threshold(failure_threshold, (k - 1) as nat);
    } else {
        assert(after_failures(v, 0) == v);
    }
    assert(after_failures(v, k) == failure_step(after_failures(v, (k - 1) as nat)));
}

/// A circuit breaker that stops operations after repeated failures.
#[derive(Debug)]
pub struct CircuitBreaker {
    state: CircuitState,
    failure_count: u32,
    failure_threshold: u32,
    success_threshold: u32,
    timeout_nanos: u128,
    last_failure_time: Option<std::time::Instant>,
}

impl View for CircuitBreaker {
    type V = CircuitBreakerView;

    closed spec fn view(&self) -> CircuitBreakerView {
        CircuitBreakerView {
            state: self.state,
            failure_count: self.failure_count,
            failure_threshold: self.failure_threshold,
            failure_recorded: self.last_failure_time.is_some(),
        }
    }
}

impl CircuitBreaker {
    /// The timeout that the breaker was made with, in nanoseconds.
    pub closed spec fn timeout_spec(&self) -> u128 {
        self.timeout_nanos
    }

    /// A closed breaker that opens after `failure_threshold` failures.
    pub fn new(failure_threshold: u32, timeout: std::time::Duration) -> (r: Self)
        ensures
            r@ == fresh_breaker(failure_threshold),
            r.timeout_spec() == duration_nanos(timeout),
    {
        CircuitBreaker {
            state: CircuitState::Closed,
            failure_count: 0,
            failure_threshold,
            success_threshold: 1,
            timeout_nanos: duration_as_nanos(&timeout),
            last_failure_time: None,
        }
    }

    /// Whether an operation may pass, given whether the timeout has passed since the last
    /// failure; an open breaker whose timeout has passed turns half-open.
    pub fn can_execute_after(&mut self, timeout_elapsed: bool) -> (r: bool)
        ensures
            r == allows(old(self)@, timeout_elapsed),
            final(self)@ == execute_step(old(self)@, timeout_elapsed),
            final(self).timeout_spec() == old(self).timeout_spec(),
    {
        match self.state {
            CircuitState::Closed => true,
            CircuitState::Open => {
                if self.last_failure_time.is_some() {
                    if timeout_elapsed {
                        self.state = CircuitState::HalfOpen;
                        true
                    } else {
                        false
                    }
                } else {
                    true
                }
            },
            CircuitState::HalfOpen => true,
        }
    }

    /// Whether an operation may pass now: the timeout has passed once the time since the last
    /// failure is at least the timeout. An open breaker whose timeout has passed turns
    /// half-open.
    pub fn can_execute(&mut self) -> (r: bool)
        ensures
            exists|since_failure: u128|
                #![trigger timed_out(since_failure, old(self).timeout_spec())]
                r == allows(old(self)@, timed_out(since_failure, old(self).timeout_spec())) && final(self)@
                    == execute_step(old(self)@, timed_out(since_failure, old(self).timeout_spec())),
            final(self).timeout_spec() == old(self).timeout_spec(),
    {
        let since_failure: u128 = match &self.last_failure_time {
            Some(t) => elapsed_nanos(t),
            None => 0,
        };
        let elapsed = since_failure >= self.timeout_nanos;
        let r = self.can_execute_after(elapsed);
        proof {
            assert(r == allows(old(self)@, timed_out(since_failure, old(self).timeout_spec())));
        }
        r
    }

    /// Records a success: a closed or half-open breaker closes with its failures reset; an open
    /// one is unchanged.
    pub fn record_success(&mut self)
        ensures
            final(self)@ == success_step(old(self)@),
            final(self).timeout_spec() == old(self).timeout_spec(),
    {
        match self.state {
            CircuitState::HalfOpen => {
                self.state = CircuitState::Closed;
                self.failure_count = 0;
            },
            CircuitState::Closed => {
                self.failure_count = 0;
            },
            CircuitState::Open => {},
        }
    }

    /// Records a failure at the current time; the breaker opens once the failures reach the
    /// threshold.
    pub fn record_failure(&mut self)
        requires
            old(self)@.failure_count < u32::MAX,
        ensures
            final(self)@ == failure_step(old(self)@),
            final(self).timeout_spec() == old(self).timeout_spec(),
    {
        self.failure_count = self.failure_count + 1;
        self.last_failure_time = Some(instant_now());
        if self.failure_count >= self.failure_threshold {
            self.state = CircuitState::Open;
        }
    }

    /// The current state.
    pub fn state(&self) -> (r: CircuitState)
        ensures
            r == self@.state,
    {
        self.state
    }
}

} // verus!
