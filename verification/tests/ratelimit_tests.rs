use linkie::ratelimit::{RateLimiter, MAX_REQUESTS_PER_IP, RATE_LIMIT_DURATION_SECS};

#[test]
fn eleventh_request_in_window_is_rejected_then_window_elapses() {
    assert_eq!(MAX_REQUESTS_PER_IP, 10);
    assert_eq!(RATE_LIMIT_DURATION_SECS, 60);
    let mut limiter = RateLimiter::with_default_limits(true);
    let client: u64 = 0x0a00_0001;
    for _ in 0..10 {
        assert!(limiter.rate_limit(client, 0).is_ok());
    }
    assert!(limiter.rate_limit(client, 30).is_err());
    assert!(limiter.rate_limit(client, 61).is_ok());
}

#[test]
fn permissive_mode_admits_everything() {
    let mut limiter = RateLimiter::with_default_limits(false);
    let client: u64 = 7;
    for _ in 0..100 {
        assert!(limiter.rate_limit(client, 0).is_ok());
    }
}

#[test]
fn clients_are_counted_independently() {
    let mut limiter = RateLimiter::new(2, 60, true);
    let a: u64 = 1;
    let b: u64 = 2;
    assert!(limiter.rate_limit(a, 0).is_ok());
    assert!(limiter.rate_limit(a, 0).is_ok());
    assert!(limiter.rate_limit(a, 0).is_err());
    assert!(limiter.rate_limit(b, 0).is_ok());
}

#[test]
fn window_boundary_is_strict() {
    let mut limiter = RateLimiter::new(1, 60, true);
    let client: u64 = 9;
    assert!(limiter.rate_limit(client, 0).is_ok());
    assert!(limiter.rate_limit(client, 60).is_err());
    assert!(limiter.rate_limit(client, 61).is_ok());
}

#[test]
fn reset_window_starts_at_crossing_time() {
    let mut limiter = RateLimiter::new(1, 60, true);
    let client: u64 = 3;
    assert!(limiter.rate_limit(client, 0).is_ok());
    assert!(limiter.rate_limit(client, 100).is_ok());
    assert!(limiter.rate_limit(client, 120).is_err());
    assert!(limiter.rate_limit(client, 161).is_ok());
}

#[test]
fn backwards_clock_counts_as_no_elapsed_time() {
    let mut limiter = RateLimiter::new(1, 60, true);
    let client: u64 = 4;
    assert!(limiter.rate_limit(client, 100).is_ok());
    assert!(limiter.rate_limit(client, 50).is_err());
}
