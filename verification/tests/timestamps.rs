use docker_core::timestamp::{match_timestamp, parse_timestamp, resolve_timestamp};
use std::time::{SystemTime, UNIX_EPOCH};

fn now() -> u64 {
    SystemTime::now().duration_since(UNIX_EPOCH).unwrap().as_secs()
}

#[test]
fn plain_date_and_time() {
    assert_eq!(match_timestamp("2024-01-02 03:04:05"), Some(1_704_164_645));
    assert_eq!(parse_timestamp("2024-01-02 03:04:05"), 1_704_164_645);
}

#[test]
fn date_and_time_with_offset() {
    assert_eq!(parse_timestamp("2024-01-02 03:04:05 +0000"), 1_704_164_645);
    // The moment is converted to UTC.
    assert_eq!(parse_timestamp("2024-01-01 00:00:00 +0900"), 1_704_034_800);
    assert_eq!(parse_timestamp("2024-01-02 03:04:05 +0100"), 1_704_164_645 - 3600);
    assert_eq!(parse_timestamp("2024-01-02 03:04:05 -0800"), 1_704_164_645 + 8 * 3600);
    assert_eq!(match_timestamp("2024-01-01 00:00:00 +0900"), Some(1_704_034_800));
}

#[test]
fn weekday_and_month_names() {
    assert_eq!(parse_timestamp("Tue Jan 02 03:04:05 2024"), 1_704_164_645);
}

#[test]
fn iso_with_t() {
    assert_eq!(parse_timestamp("2024-01-02T03:04:05"), 1_704_164_645);
}

#[test]
fn the_epoch() {
    assert_eq!(parse_timestamp("1970-01-01 00:00:00"), 0);
    assert_eq!(parse_timestamp("1970-01-01T00:00:01"), 1);
}

#[test]
fn before_the_epoch_keeps_its_bits() {
    assert_eq!(match_timestamp("1969-12-31 23:59:59"), Some(-1));
    assert_eq!(parse_timestamp("1969-12-31 23:59:59"), u64::MAX);
}

#[test]
fn unparsable_timestamp_is_about_now() {
    for text in ["", "garbage", "2 weeks ago", "2024-01-02", "2024-13-45 99:99:99"] {
        assert_eq!(match_timestamp(text), None, "{:?}", text);
        let before = now();
        let parsed = parse_timestamp(text);
        let after = now();
        assert!(before <= parsed + 1 && parsed <= after + 1, "{:?}: {} not in {}..{}", text, parsed, before, after);
    }
}

#[test]
fn parsed_seconds_win_over_the_clock() {
    assert_eq!(resolve_timestamp(Some(5), 99), 5);
    assert_eq!(resolve_timestamp(Some(0), 99), 0);
    assert_eq!(resolve_timestamp(Some(-1), 99), u64::MAX);
    assert_eq!(resolve_timestamp(None, 99), 99);
    assert_eq!(resolve_timestamp(None, -2), u64::MAX - 1);
}
