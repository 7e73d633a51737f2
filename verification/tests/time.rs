use blackforge::time::{ago, ago_at, parse};

#[test]
fn spans_below_a_minute_are_just_now() {
    assert_eq!(ago_at(1000, 1000), "just now");
    assert_eq!(ago_at(1059, 1000), "just now");
}

#[test]
fn spans_in_words() {
    assert_eq!(ago_at(1300, 1000), "5 minutes ago");
    assert_eq!(ago_at(3600, 0), "1 hour ago");
    assert_eq!(ago_at(1000, 1300), "just now");
}

#[test]
fn a_moment_of_the_future_is_just_now() {
    assert_eq!(ago(i64::MAX), "just now");
    assert!(ago(0).ends_with(" years ago"));
}

#[test]
fn thunderstore_times() {
    assert_eq!(parse("2024-01-01T00:00:00Z"), Some(1_704_067_200));
    assert_eq!(parse("2024-01-01T01:00:00+01:00"), Some(1_704_067_200));
    assert_eq!(parse("2024-01-01T00:00:00.123456Z"), Some(1_704_067_200));
    assert_eq!(parse("yesterday"), None);
    assert_eq!(parse(""), None);
}
