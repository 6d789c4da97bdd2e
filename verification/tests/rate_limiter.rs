use jarvix::rate_limiter::{RateLimitExceeded, RateLimiter};

const HOUR: i64 = 3_600_000;

#[test]
fn test_rate_limiter() {
    let mut limiter = RateLimiter::new();

    // Should allow first request
    assert!(limiter.check_and_record("test_api", 2).is_ok());

    // Should allow second request
    assert!(limiter.check_and_record("test_api", 2).is_ok());

    // Should deny third request
    assert!(limiter.check_and_record("test_api", 2).is_err());
}

#[test]
fn first_n_requests_pass_and_the_next_fails() {
    let mut limiter = RateLimiter::new();
    let n: u32 = 5;
    for k in 0..n {
        assert!(limiter.check_and_record_at("api", n, 1_000 + k as i64).is_ok());
    }
    // a stamp of exactly one hour ago still counts
    let denied = limiter.check_and_record_at("api", n, 1_000 + HOUR);
    assert!(denied.is_err());
    assert_eq!(denied.unwrap_err().source, "api");
    assert_eq!(limiter.recorded("api"), vec![1_000, 1_001, 1_002, 1_003, 1_004]);
}

#[test]
fn admitted_again_an_hour_after_the_oldest() {
    let mut limiter = RateLimiter::new();
    assert!(limiter.check_and_record_at("api", 2, 0).is_ok());
    assert!(limiter.check_and_record_at("api", 2, 10).is_ok());
    assert!(limiter.check_and_record_at("api", 2, HOUR - 1).is_err());
    // exactly one hour after the oldest stamp it still counts
    assert!(limiter.check_and_record_at("api", 2, HOUR).is_err());
    assert_eq!(limiter.recorded("api"), vec![0, 10]);
    assert!(limiter.check_and_record_at("api", 2, HOUR + 1).is_ok());
    assert_eq!(limiter.recorded("api"), vec![10, HOUR + 1]);
    assert!(limiter.check_and_record_at("api", 2, HOUR + 10).is_err());
    assert!(limiter.check_and_record_at("api", 2, HOUR + 11).is_ok());
    assert_eq!(limiter.recorded("api"), vec![HOUR + 1, HOUR + 11]);
}

#[test]
fn sources_do_not_share_a_quota() {
    let mut limiter = RateLimiter::new();
    assert!(limiter.check_and_record_at("a", 1, 5).is_ok());
    assert!(limiter.check_and_record_at("b", 1, 5).is_ok());
    assert!(limiter.check_and_record_at("a", 1, 6).is_err());
    assert!(limiter.check_and_record_at("b", 1, 6).is_err());
    assert_eq!(limiter.recorded("a"), vec![5]);
    assert_eq!(limiter.recorded("b"), vec![5]);
    assert!(limiter.recorded("c").is_empty());
}

#[test]
fn zero_quota_admits_nothing() {
    let mut limiter = RateLimiter::new();
    assert!(limiter.check_and_record("api", 0).is_err());
    assert!(limiter.check_and_record_at("api", 0, 0).is_err());
    assert!(limiter.recorded("api").is_empty());
}

#[test]
fn denial_still_prunes_old_stamps() {
    let mut limiter = RateLimiter::new();
    assert!(limiter.check_and_record_at("api", 3, 0).is_ok());
    assert!(limiter.check_and_record_at("api", 3, 100).is_ok());
    assert!(limiter.check_and_record_at("api", 3, 200).is_ok());
    // quota lowered to one: at exactly one hour nothing goes yet
    assert!(limiter.check_and_record_at("api", 1, HOUR).is_err());
    assert_eq!(limiter.recorded("api"), vec![0, 100, 200]);
    // the stamp at 0 is more than an hour old and goes, the rest stay
    assert!(limiter.check_and_record_at("api", 1, HOUR + 1).is_err());
    assert_eq!(limiter.recorded("api"), vec![100, 200]);
}

#[test]
fn extreme_times_are_handled() {
    let mut limiter = RateLimiter::new();
    assert!(limiter.check_and_record_at("api", 2, i64::MIN).is_ok());
    assert!(limiter.check_and_record_at("api", 2, i64::MAX).is_ok());
    assert_eq!(limiter.recorded("api"), vec![i64::MAX]);
}

#[test]
fn message_names_the_source() {
    let error = RateLimitExceeded { source: "whois".to_string() };
    assert_eq!(error.message(), "Rate limit exceeded for whois");
}

#[test]
fn stamp_of_exactly_one_hour_ago_counts() {
    let mut limiter = RateLimiter::new();
    assert!(limiter.check_and_record_at("api", 1, 0).is_ok());
    assert!(limiter.check_and_record_at("api", 1, HOUR).is_err());
    assert_eq!(limiter.recorded("api"), vec![0]);
    assert!(limiter.check_and_record_at("api", 1, HOUR + 1).is_ok());
    assert_eq!(limiter.recorded("api"), vec![HOUR + 1]);
}
