use relay_bot::ratelimit::{
    limiter, Delay, Limiter, Quota, INITIAL_TOKENS, MAX_INTERVAL_SECS, MAX_QUOTA_TOKENS,
    MAX_TOKENS, REFILL_AMOUNT, REFILL_INTERVAL_SECS,
};
use std::time::{Duration, Instant};

fn pause(millis: u64) {
    let start = Instant::now();
    while start.elapsed() < Duration::from_millis(millis) {
        std::hint::spin_loop();
    }
}

fn nanos(delay: Delay) -> u128 {
    delay.secs as u128 * 1_000_000_000 + delay.nanos as u128
}

fn quota(refill_amount: u64, interval_secs: u64, initial: u64, capacity: u64) -> Quota {
    Quota { refill_amount, interval_secs, initial, capacity }
}

#[test]
fn standard_quota_is_thirty_per_minute_up_to_one_hundred_and_twenty() {
    assert_eq!(REFILL_AMOUNT, 30);
    assert_eq!(REFILL_INTERVAL_SECS, 60);
    assert_eq!(INITIAL_TOKENS, 30);
    assert_eq!(MAX_TOKENS, 120);
    assert_eq!(Quota::standard(), quota(30, 60, 30, 120));
    assert!(Quota::standard().is_valid());
}

#[test]
fn fresh_bucket_admits_exactly_thirty() {
    let mut limiter = limiter();
    for _ in 0..30 {
        assert_eq!(limiter.wait(42), Ok(()));
    }
    let refused = limiter.wait(42);
    assert!(refused.is_err());
}

#[test]
fn refusal_names_a_positive_wait_within_the_window() {
    let mut limiter = limiter();
    for _ in 0..30 {
        assert_eq!(limiter.wait(42), Ok(()));
    }
    for _ in 0..5 {
        let delay = limiter.wait(42).unwrap_err();
        assert!(delay.nanos < 1_000_000_000);
        assert!(nanos(delay) > 0);
        assert!(nanos(delay) <= 60_000_000_000);
        assert!(nanos(delay) > 30_000_000_000);
    }
}

#[test]
fn default_limiter_is_the_standard_one() {
    let mut limiter = Limiter::default();
    for _ in 0..30 {
        assert_eq!(limiter.wait(7), Ok(()));
    }
    assert!(limiter.wait(7).is_err());
}

#[test]
fn buckets_are_per_user() {
    let mut limiter = limiter();
    for _ in 0..30 {
        assert_eq!(limiter.wait(42), Ok(()));
    }
    assert!(limiter.wait(42).is_err());
    for _ in 0..30 {
        assert_eq!(limiter.wait(43), Ok(()));
    }
    assert!(limiter.wait(43).is_err());
    assert!(limiter.wait(42).is_err());
    assert_eq!(limiter.wait(-42), Ok(()));
}

#[test]
fn interleaved_users_do_not_share_tokens() {
    let mut limiter = limiter();
    for _ in 0..30 {
        assert_eq!(limiter.wait(1), Ok(()));
        assert_eq!(limiter.wait(2), Ok(()));
        assert_eq!(limiter.wait(3), Ok(()));
    }
    assert!(limiter.wait(1).is_err());
    assert!(limiter.wait(2).is_err());
    assert!(limiter.wait(3).is_err());
}

#[test]
fn full_window_refills_the_bucket() {
    let mut limiter = Limiter::new(quota(30, 1, 30, 120)).unwrap();
    for _ in 0..30 {
        assert_eq!(limiter.wait(42), Ok(()));
    }
    let delay = limiter.wait(42).unwrap_err();
    assert!(nanos(delay) > 0);
    assert!(nanos(delay) <= 1_000_000_000);
    pause(1100);
    for _ in 0..30 {
        assert_eq!(limiter.wait(42), Ok(()));
    }
}

#[test]
fn bucket_never_holds_more_than_its_capacity() {
    let mut limiter = Limiter::new(quota(2, 1, 0, 3)).unwrap();
    assert!(limiter.wait(42).is_err());
    pause(2200);
    assert_eq!(limiter.wait(42), Ok(()));
    assert_eq!(limiter.wait(42), Ok(()));
    assert_eq!(limiter.wait(42), Ok(()));
    assert!(limiter.wait(42).is_err());
}

#[test]
fn bucket_starts_with_its_initial_tokens() {
    let mut limiter = Limiter::new(quota(1, 3600, 5, 10)).unwrap();
    for _ in 0..5 {
        assert_eq!(limiter.wait(42), Ok(()));
    }
    assert!(limiter.wait(42).is_err());
    let mut empty = Limiter::new(quota(1, 3600, 0, 10)).unwrap();
    assert!(empty.wait(42).is_err());
}

#[test]
fn invalid_quota_makes_no_limiter() {
    assert!(Limiter::new(quota(30, 60, 30, 120)).is_some());
    assert!(Limiter::new(quota(121, 60, 30, 120)).is_none());
    assert!(Limiter::new(quota(30, 60, 121, 120)).is_none());
    assert!(Limiter::new(quota(30, 0, 30, 120)).is_none());
    assert!(Limiter::new(quota(30, MAX_INTERVAL_SECS + 1, 30, 120)).is_none());
    assert!(Limiter::new(quota(30, MAX_INTERVAL_SECS, 30, 120)).is_some());
    assert!(Limiter::new(quota(1, 1, 1, MAX_QUOTA_TOKENS + 1)).is_none());
    assert!(Limiter::new(quota(0, 1, 0, 0)).is_some());
}

#[test]
fn quota_validity_is_decided() {
    assert!(quota(30, 60, 30, 120).is_valid());
    assert!(quota(120, 60, 120, 120).is_valid());
    assert!(!quota(121, 60, 120, 120).is_valid());
    assert!(!quota(120, 60, 121, 120).is_valid());
    assert!(!quota(1, 0, 1, 1).is_valid());
    assert!(quota(1, 1, 1, 1).is_valid());
    assert!(quota(MAX_QUOTA_TOKENS, MAX_INTERVAL_SECS, MAX_QUOTA_TOKENS, MAX_QUOTA_TOKENS).is_valid());
}

#[test]
fn first_requests_are_admitted_whatever_others_spend() {
    let mut limiter = Limiter::new(quota(1, 3600, 3, 5)).unwrap();
    for _ in 0..10 {
        let _ = limiter.wait(1);
    }
    for user in [2i64, 3, -4, i64::MIN, i64::MAX] {
        assert_eq!(limiter.wait(user), Ok(()));
        let _ = limiter.wait(1);
        assert_eq!(limiter.wait(user), Ok(()));
        assert_eq!(limiter.wait(user), Ok(()));
        assert!(limiter.wait(user).is_err());
    }
}

#[test]
fn refused_request_spends_nothing_of_the_refill() {
    let mut limiter = Limiter::new(quota(2, 1, 0, 2)).unwrap();
    for _ in 0..50 {
        assert!(limiter.wait(42).is_err());
    }
    pause(1100);
    assert_eq!(limiter.wait(42), Ok(()));
    assert_eq!(limiter.wait(42), Ok(()));
    assert!(limiter.wait(42).is_err());
}
