use std::time::Duration;
use yuha::error::retry::{should_retry, CircuitBreaker, CircuitState};
use yuha::error::YuhaError;

#[test]
fn test_circuit_breaker() {
    let mut breaker = CircuitBreaker::new(2, Duration::from_millis(100));

    assert_eq!(breaker.state(), CircuitState::Closed);
    assert!(breaker.can_execute());

    breaker.record_failure();
    assert_eq!(breaker.state(), CircuitState::Closed);

    breaker.record_failure();
    assert_eq!(breaker.state(), CircuitState::Open);
    assert!(!breaker.can_execute());
    breaker.record_success();
    assert_eq!(breaker.state(), CircuitState::Open);
}

#[test]
fn open_breaker_half_opens_after_timeout_and_closes_on_success() {
    let mut breaker = CircuitBreaker::new(1, Duration::from_millis(0));
    breaker.record_failure();
    assert_eq!(breaker.state(), CircuitState::Open);
    assert!(breaker.can_execute_after(true));
    assert_eq!(breaker.state(), CircuitState::HalfOpen);
    breaker.record_success();
    assert_eq!(breaker.state(), CircuitState::Closed);
}

#[test]
fn open_breaker_stays_open_before_timeout() {
    let mut breaker = CircuitBreaker::new(1, Duration::from_secs(3600));
    breaker.record_failure();
    assert!(!breaker.can_execute_after(false));
    assert_eq!(breaker.state(), CircuitState::Open);
}

#[test]
fn retries_only_retriable_errors_below_the_limit() {
    let retriable = YuhaError::Protocol(yuha::error::ProtocolError::Timeout { seconds: 5 });
    assert!(should_retry(3, &retriable, 1));
    assert!(!should_retry(3, &retriable, 3));
    let fatal = YuhaError::config("bad");
    assert!(!should_retry(3, &fatal, 0));
}

#[test]
fn breaker_opens_once_failures_reach_the_threshold() {
    let mut breaker = CircuitBreaker::new(3, Duration::from_secs(60));
    breaker.record_failure();
    assert_eq!(breaker.state(), CircuitState::Closed);
    breaker.record_failure();
    assert_eq!(breaker.state(), CircuitState::Closed);
    breaker.record_failure();
    assert_eq!(breaker.state(), CircuitState::Open);
    breaker.record_failure();
    assert_eq!(breaker.state(), CircuitState::Open);
}
