use payment_system::middleware::rate_limit::{IpRateLimiter, RateLimitHeaders, RateLimitState, RateLimiterConfig};

const SEC: u128 = 1_000_000_000;

#[test]
fn default_config_is_one_hundred_per_minute() {
    let c = RateLimiterConfig::default();
    assert_eq!(c.max_requests, 100);
    assert_eq!(c.window_size, 60);
    let l = IpRateLimiter::new(c);
    assert_eq!(l.config, c);
    assert_eq!(l.bucket("10.0.0.1"), None);
}

#[test]
fn admits_up_to_the_limit_within_a_window() {
    let mut l = IpRateLimiter::with_config(3, 60);
    assert!(l.check_request("10.0.0.1", 0));
    assert!(l.check_request("10.0.0.1", SEC));
    assert!(l.check_request("10.0.0.1", 2 * SEC));
    assert!(!l.check_request("10.0.0.1", 3 * SEC));
    assert!(!l.check_request("10.0.0.1", 60 * SEC));
    assert_eq!(l.bucket("10.0.0.1"), Some(RateLimitState { start_time: 0, request_count: 3 }));
}

#[test]
fn clients_are_counted_separately() {
    let mut l = IpRateLimiter::with_config(1, 60);
    assert!(l.check_request("10.0.0.1", 0));
    assert!(!l.check_request("10.0.0.1", 1));
    assert!(l.check_request("10.0.0.2", 2));
    assert!(l.check_request("::1", 3));
}

#[test]
fn an_expired_window_starts_over() {
    let mut l = IpRateLimiter::with_config(1, 60);
    assert!(l.check_request("10.0.0.1", 0));
    assert!(!l.check_request("10.0.0.1", 60 * SEC));
    assert!(l.check_request("10.0.0.1", 60 * SEC + 1));
    assert_eq!(l.bucket("10.0.0.1"), Some(RateLimitState { start_time: 60 * SEC + 1, request_count: 1 }));
}

#[test]
fn a_zero_limit_still_admits_the_first_request() {
    let mut l = IpRateLimiter::with_config(0, 60);
    assert!(l.check_request("10.0.0.1", 0));
    assert!(!l.check_request("10.0.0.1", 1));
}

#[test]
fn headers_report_remaining_quota_and_reset() {
    let mut l = IpRateLimiter::with_config(30, 60);
    assert_eq!(l.quota_headers("10.0.0.1", 0), None);
    assert!(l.check_request("10.0.0.1", 5 * SEC));
    assert!(l.check_request("10.0.0.1", 15 * SEC));
    assert_eq!(
        l.quota_headers("10.0.0.1", 15 * SEC + 500_000_000),
        Some(RateLimitHeaders { limit: 30, remaining: 28, reset: 49 })
    );
    // Past the window the reset is zero.
    assert_eq!(l.quota_headers("10.0.0.1", 70 * SEC).map(|h| h.reset), Some(0));
    // Arrived before the window began (clock read before a reset): full window.
    assert_eq!(l.quota_headers("10.0.0.1", 0).map(|h| h.reset), Some(60));
}

#[test]
fn refusal_headers_ask_to_wait_a_window() {
    let l = IpRateLimiter::with_config(30, 60);
    assert_eq!(l.refusal_headers(), RateLimitHeaders { limit: 30, remaining: 0, reset: 60 });
}
