use alttp_queue_bot::ratelimit::{
    parse_secs_to_millis, parse_u64, RateLimitInfo, WithRateLimitInfo,
};

fn headers(pairs: &[(&str, &str)]) -> Vec<(String, String)> {
    pairs.iter().map(|(n, v)| (n.to_string(), v.to_string())).collect()
}

#[test]
fn parse_u64_accepts_digits_only() {
    assert_eq!(parse_u64("0"), Some(0));
    assert_eq!(parse_u64("42"), Some(42));
    assert_eq!(parse_u64("18446744073709551615"), Some(u64::MAX));
    assert_eq!(parse_u64("18446744073709551616"), None);
    assert_eq!(parse_u64(""), None);
    assert_eq!(parse_u64("12a"), None);
    assert_eq!(parse_u64("-1"), None);
    assert_eq!(parse_u64("1.5"), None);
}

#[test]
fn secs_to_millis_rounds_up() {
    assert_eq!(parse_secs_to_millis("2.5"), Some(2500));
    assert_eq!(parse_secs_to_millis("2"), Some(2000));
    assert_eq!(parse_secs_to_millis("2."), Some(2000));
    assert_eq!(parse_secs_to_millis("64.57"), Some(64570));
    assert_eq!(parse_secs_to_millis("0.0001"), Some(1));
    assert_eq!(parse_secs_to_millis("1.9999"), Some(2000));
    assert_eq!(parse_secs_to_millis("0.123"), Some(123));
    assert_eq!(parse_secs_to_millis(".5"), None);
    assert_eq!(parse_secs_to_millis("2.5.1"), None);
    assert_eq!(parse_secs_to_millis("abc"), None);
    assert_eq!(parse_secs_to_millis(""), None);
}

#[test]
fn descriptor_needs_all_three_fields() {
    let full = RateLimitInfo::from_headers(&headers(&[
        ("x-ratelimit-remaining", "3"),
        ("x-ratelimit-reset-after", "1.25"),
        ("x-ratelimit-bucket", "abcd"),
    ]))
    .unwrap();
    assert_eq!(full.remaining, 3);
    assert_eq!(full.reset_after_millis(), 1250);
    assert_eq!(full.bucket, "abcd");

    assert!(RateLimitInfo::from_headers(&headers(&[
        ("x-ratelimit-remaining", "3"),
        ("x-ratelimit-reset-after", "1.25"),
    ]))
    .is_none());
    assert!(RateLimitInfo::from_headers(&headers(&[])).is_none());
}

#[test]
fn latest_good_header_wins() {
    let info = RateLimitInfo::from_headers(&headers(&[
        ("x-ratelimit-remaining", "5"),
        ("x-ratelimit-reset-after", "1.0"),
        ("x-ratelimit-bucket", "one"),
        ("x-ratelimit-remaining", "0"),
        ("x-ratelimit-bucket", "two"),
    ]))
    .unwrap();
    assert_eq!(info.remaining, 0);
    assert_eq!(info.bucket, "two");

    // A value that fails to parse never displaces an earlier good one.
    let kept = RateLimitInfo::from_headers(&headers(&[
        ("x-ratelimit-remaining", "5"),
        ("x-ratelimit-reset-after", "1.0"),
        ("x-ratelimit-bucket", "one"),
        ("x-ratelimit-remaining", "oops"),
    ]))
    .unwrap();
    assert_eq!(kept.remaining, 5);
}

#[test]
fn exhausted_budget_blocks_for_reset_after() {
    // A descriptor reporting no remaining calls and a 2.5 second reset owes
    // the caller a 2500 ms pause before the next call.
    let info = RateLimitInfo::from_headers(&headers(&[
        ("x-ratelimit-remaining", "0"),
        ("x-ratelimit-reset-after", "2.5"),
        ("x-ratelimit-bucket", "abcd"),
    ]))
    .unwrap();
    let wrapped = WithRateLimitInfo::new((), Some(info));
    assert_eq!(wrapped.sleep_time(), Some(2500));
}

#[test]
fn remaining_budget_means_no_pause() {
    let info = RateLimitInfo {
        bucket: "abcd".to_string(),
        reset_after: 2500,
        remaining: 1,
    };
    let wrapped = WithRateLimitInfo::new((), Some(info));
    assert_eq!(wrapped.sleep_time(), None);
    // No descriptor means an unknown budget, never an exhausted one.
    let bare: WithRateLimitInfo<()> = WithRateLimitInfo::new((), None);
    assert_eq!(bare.sleep_time(), None);
}
