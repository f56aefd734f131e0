//! Tests for transport routing and the retry session.

use frontegg::{
    backoff_ms, is_transient_status, transport_for, Method, RetryDecision, RetryPolicy,
    RetrySession, Transport,
};

#[test]
fn transport_routing() {
    assert_eq!(transport_for(Method::Get), Transport::Retryable);
    assert_eq!(transport_for(Method::Head), Transport::Retryable);
    assert_eq!(transport_for(Method::Post), Transport::NonRetryable);
    assert_eq!(transport_for(Method::Put), Transport::NonRetryable);
    assert_eq!(transport_for(Method::Delete), Transport::NonRetryable);
    assert_eq!(transport_for(Method::Patch), Transport::NonRetryable);
}

#[test]
fn transient_statuses() {
    assert!(is_transient_status(429));
    assert!(is_transient_status(500));
    assert!(is_transient_status(503));
    assert!(is_transient_status(599));
    assert!(!is_transient_status(200));
    assert!(!is_transient_status(400));
    assert!(!is_transient_status(404));
    assert!(!is_transient_status(418));
    assert!(!is_transient_status(600));
}

/// Counts the attempts a request makes when every attempt fails with a
/// transient status.
fn attempts_until_surfaced(method: Method, policy: RetryPolicy) -> u32 {
    let mut session = RetrySession::new(&policy, transport_for(method));
    let mut attempts = 1;
    loop {
        match session.on_transient_failure() {
            RetryDecision::Retry { .. } => attempts += 1,
            RetryDecision::GiveUp => return attempts,
        }
    }
}

#[test]
fn get_retries_up_to_max_then_surfaces() {
    // With three retries allowed, a GET that keeps failing with 429 is
    // attempted four times in all before the error surfaces.
    let policy = RetryPolicy::new(1, 1, 3);
    assert_eq!(attempts_until_surfaced(Method::Get, policy), 4);
}

#[test]
fn post_is_attempted_exactly_once() {
    let policy = RetryPolicy::new(1, 1, 3);
    assert_eq!(attempts_until_surfaced(Method::Post, policy), 1);
}

#[test]
fn head_retries_and_delete_does_not() {
    let policy = RetryPolicy::new(10, 40, 5);
    assert_eq!(attempts_until_surfaced(Method::Head, policy), 6);
    assert_eq!(attempts_until_surfaced(Method::Delete, policy), 1);
}

#[test]
fn zero_retries_surface_immediately() {
    let policy = RetryPolicy::new(100, 3_000, 0);
    assert_eq!(attempts_until_surfaced(Method::Get, policy), 1);
}

#[test]
fn backoff_doubles_and_clamps() {
    let policy = RetryPolicy::new(100, 3_000, 10);
    assert_eq!(backoff_ms(&policy, 0), 100);
    assert_eq!(backoff_ms(&policy, 1), 200);
    assert_eq!(backoff_ms(&policy, 2), 400);
    assert_eq!(backoff_ms(&policy, 3), 800);
    assert_eq!(backoff_ms(&policy, 4), 1_600);
    assert_eq!(backoff_ms(&policy, 5), 3_000);
    assert_eq!(backoff_ms(&policy, 60), 3_000);
}

#[test]
fn retry_delays_follow_the_policy() {
    let policy = RetryPolicy::new(100, 3_000, 6);
    let mut session = RetrySession::new(&policy, Transport::Retryable);
    let mut delays = Vec::new();
    loop {
        match session.on_transient_failure() {
            RetryDecision::Retry { delay_ms } => delays.push(delay_ms),
            RetryDecision::GiveUp => break,
        }
    }
    assert_eq!(delays, vec![100, 200, 400, 800, 1_600, 3_000]);
}
