use remux::labels::{age_label, humanize_seconds, initials, parse_dt, relative_time, relative_time_at};
use remux::text::{decimal, parse_i32_trimmed, parse_i64, str_contains};
use remux::time::Timestamp;

fn ts(secs: i64) -> Timestamp {
    Timestamp::new(secs, 0).unwrap()
}

#[test]
fn age_label_buckets() {
    assert_eq!(age_label(-1).as_deref(), Some("\u{2014}"));
    assert_eq!(age_label(0).as_deref(), Some("0s ago"));
    assert_eq!(age_label(59).as_deref(), Some("59s ago"));
    assert_eq!(age_label(60).as_deref(), Some("1m ago"));
    assert_eq!(age_label(3599).as_deref(), Some("59m ago"));
    assert_eq!(age_label(3600).as_deref(), Some("1h ago"));
    assert_eq!(age_label(86_399).as_deref(), Some("23h ago"));
    assert_eq!(age_label(86_400).as_deref(), Some("1d ago"));
    assert_eq!(age_label(29 * 86_400 + 86_399).as_deref(), Some("29d ago"));
    assert_eq!(age_label(30 * 86_400), None);
}

#[test]
fn relative_time_uses_the_date_after_thirty_days() {
    let now = ts(1_767_348_000); // 2026-01-02T10:00:00Z
    assert_eq!(relative_time_at(now, Some(ts(1_767_348_000 - 125))), "2m ago");
    assert_eq!(relative_time_at(now, Some(ts(1_767_348_000 - 7_200))), "2h ago");
    assert_eq!(relative_time_at(now, Some(ts(1_767_348_000 - 5 * 86_400))), "5d ago");
    assert_eq!(relative_time_at(now, Some(ts(1_767_348_000 - 40 * 86_400))), "2025-11-23");
    assert_eq!(relative_time_at(now, Some(ts(1_767_348_000 + 10))), "\u{2014}");
    assert_eq!(relative_time_at(now, None), "\u{2014}");
}

#[test]
fn relative_time_counts_whole_seconds_toward_zero() {
    let now = Timestamp::new(1_000, 200_000_000).unwrap();
    let dt = Timestamp::new(940, 500_000_000).unwrap();
    // 59.7 seconds ago
    assert_eq!(relative_time_at(now, Some(dt)), "59s ago");
}

#[test]
fn relative_time_against_the_clock() {
    assert_eq!(relative_time(None), "\u{2014}");
    let old = ts(0);
    assert_eq!(relative_time(Some(old)), "1970-01-01");
}

#[test]
fn parse_dt_reads_rfc3339_in_utc() {
    let t = parse_dt(&Some("2026-01-02T10:00:00Z".to_string())).unwrap();
    assert_eq!(t, ts(1_767_348_000));
    let t = parse_dt(&Some("2026-01-02T12:00:00.5+02:00".to_string())).unwrap();
    assert_eq!(t, Timestamp::new(1_767_348_000, 500_000_000).unwrap());
    assert_eq!(parse_dt(&Some("yesterday".to_string())), None);
    assert_eq!(parse_dt(&None), None);
}

#[test]
fn humanize_seconds_formats() {
    assert_eq!(humanize_seconds(0), "0m");
    assert_eq!(humanize_seconds(-5), "0m");
    assert_eq!(humanize_seconds(45), "45s");
    assert_eq!(humanize_seconds(125), "2m");
    assert_eq!(humanize_seconds(3_725), "1h 2m");
    assert_eq!(humanize_seconds(7_200), "2h 0m");
    assert_eq!(humanize_seconds(i64::MAX), "2562047788015215h 30m");
}

#[test]
fn initials_of_names() {
    assert_eq!(initials("John Smith"), "JS");
    assert_eq!(initials("  alice  "), "a");
    assert_eq!(initials("Ana Maria Lopez"), "AM");
    assert_eq!(initials(""), "?");
    assert_eq!(initials(" \t\n"), "?");
    assert_eq!(initials("\u{3000}Émile\u{00a0}Zola"), "ÉZ");
}

#[test]
fn decimal_rendering() {
    assert_eq!(decimal(0), "0");
    assert_eq!(decimal(-123), "-123");
    assert_eq!(decimal(i64::MIN), i64::MIN.to_string());
    assert_eq!(decimal(i64::MAX), i64::MAX.to_string());
}

#[test]
fn integer_parsing_matches_std() {
    for s in ["", "-", "+", "+5", "-5", "007", "12a", " 1", "9223372036854775807", "9223372036854775808", "-9223372036854775808", "-9223372036854775809", "１"] {
        assert_eq!(parse_i64(s), s.parse::<i64>().ok(), "{s:?}");
    }
    for s in [" 12 ", "\t-3\n", "2147483648", "-2147483648", "", "x"] {
        assert_eq!(parse_i32_trimmed(s), s.trim().parse::<i32>().ok(), "{s:?}");
    }
}

#[test]
fn substring_search() {
    assert!(str_contains("alice", "lic"));
    assert!(str_contains("alice", ""));
    assert!(!str_contains("alice", "bob"));
    assert!(!str_contains("al", "alice"));
}

#[test]
fn chrono_range_of_instants() {
    assert!(Timestamp::new(0, 0).is_some());
    assert!(Timestamp::new(-8_334_601_228_800, 0).is_some());
    assert!(Timestamp::new(-8_334_601_228_801, 0).is_none());
    assert!(Timestamp::new(8_210_266_876_799, 999_999_999).is_some());
    assert!(Timestamp::new(8_210_266_876_800, 0).is_none());
    assert!(Timestamp::new(59, 1_500_000_000).is_some());
    assert!(Timestamp::new(58, 1_500_000_000).is_none());
    assert!(Timestamp::new(59, 2_000_000_000).is_none());
}
