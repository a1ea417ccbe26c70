use solana_rpc_client::rate_limit::{Admission, RateLimitConfig, RateLimiter};

#[test]
fn test_rate_limiter_creation() {
    let config = RateLimitConfig { max_rps: 100, burst_size: 10 };
    let limiter = RateLimiter::new(&config, 0).unwrap();
    assert_eq!(limiter.max_rps(), 100);
    assert_eq!(limiter.burst_size(), 10);
}

#[test]
fn rate_limit_test_rate_limiting() {
    let config = RateLimitConfig { max_rps: 2, burst_size: 1 };
    let mut limiter = RateLimiter::new(&config, 0).unwrap();
    // First request succeeds immediately.
    assert_eq!(limiter.try_acquire(0), Admission::Granted);
    // Second request has to wait half a second.
    match limiter.try_acquire(0) {
        Admission::Wait(ms) => assert!(ms >= 450),
        Admission::Granted => panic!("second permit granted without waiting"),
    }
    assert_eq!(limiter.try_acquire(500), Admission::Granted);
}

#[test]
fn rate_limit_test_invalid_config() {
    let config = RateLimitConfig { max_rps: 0, burst_size: 10 };
    assert!(RateLimiter::new(&config, 0).is_err());
    let config = RateLimitConfig { max_rps: 100, burst_size: 0 };
    assert!(RateLimiter::new(&config, 0).is_err());
}

#[test]
fn full_bucket_grants_burst_then_waits() {
    let config = RateLimitConfig { max_rps: 10, burst_size: 4 };
    let mut limiter = RateLimiter::new(&config, 1_000).unwrap();
    for _ in 0..4 {
        assert_eq!(limiter.try_acquire(1_000), Admission::Granted);
    }
    assert_eq!(limiter.try_acquire(1_000), Admission::Wait(100));
    assert_eq!(limiter.milli_tokens(), 0);
}

#[test]
fn tokens_never_exceed_burst() {
    let config = RateLimitConfig { max_rps: 1000, burst_size: 3 };
    let mut limiter = RateLimiter::new(&config, 0).unwrap();
    assert_eq!(limiter.try_acquire(1_000_000), Admission::Granted);
    assert_eq!(limiter.milli_tokens(), 2_000);
    assert!(limiter.milli_tokens() <= 3_000);
}

#[test]
fn one_per_second_is_serialized() {
    let config = RateLimitConfig { max_rps: 1, burst_size: 1 };
    let mut limiter = RateLimiter::new(&config, 0).unwrap();
    assert_eq!(limiter.try_acquire(0), Admission::Granted);
    assert_eq!(limiter.try_acquire(0), Admission::Wait(1000));
    assert_eq!(limiter.try_acquire(999), Admission::Wait(1));
    assert_eq!(limiter.try_acquire(1000), Admission::Granted);
    assert_eq!(limiter.try_acquire(1500), Admission::Wait(500));
}

#[test]
fn wait_is_bounded_by_one_refill_interval() {
    let config = RateLimitConfig { max_rps: 3, burst_size: 1 };
    let mut limiter = RateLimiter::new(&config, 0).unwrap();
    assert_eq!(limiter.try_acquire(0), Admission::Granted);
    // ceil(1000 / 3) = 334
    assert_eq!(limiter.try_acquire(0), Admission::Wait(334));
}

#[test]
fn penalty_empties_and_delays_refill() {
    let config = RateLimitConfig { max_rps: 10, burst_size: 5 };
    let mut limiter = RateLimiter::new(&config, 0).unwrap();
    limiter.penalize(0);
    assert_eq!(limiter.milli_tokens(), 0);
    assert_eq!(limiter.try_acquire(500), Admission::Wait(600));
    assert_eq!(limiter.try_acquire(1_100), Admission::Granted);
}
