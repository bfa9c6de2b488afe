use walpipe::metrics::MetricsTracker;
use walpipe::metrics::ReplicationMetrics;
use walpipe::metrics::ShutdownFlag;
use walpipe::utils::text::bool_string;
use walpipe::utils::text::bytes_equal;
use walpipe::utils::text::is_blank;
use walpipe::utils::text::signed_decimal_string;
use walpipe::utils::text::starts_with;
use walpipe::utils::text::str_equal;
use walpipe::utils::text::truncated;
use walpipe::utils::timestamp::format_timestamp_from_pg;
use walpipe::utils::timestamp::postgres_timestamp;
use walpipe::utils::timestamp::timestamp_since_epoch;

#[test]
fn metrics_count_and_saturate() {
    let mut m = MetricsTracker::new();
    assert!(!m.is_healthy(0));
    m.record_bytes(100, 1_000);
    m.record_bytes(20, 1_005);
    assert_eq!(m.bytes, 120);
    assert_eq!(m.last_msg, Some(1_005));
    // Bytes arrived, nothing failed: healthy while the chunk is recent.
    assert!(m.is_healthy(1_005));
    assert!(m.is_healthy(1_034));
    assert!(!m.is_healthy(1_035));
    assert!(!m.is_healthy(1_004));
    for _ in 0..100 {
        m.record_message();
    }
    m.record_error();
    assert_eq!(m.messages, 100);
    assert_eq!(m.errors, 1);
    // One error in 101: just under one in a hundred.
    assert!(m.is_healthy(1_005));
    m.record_error();
    assert!(!m.is_healthy(1_005));
    assert!(m.should_validate(100, 100));
    assert!(m.should_validate(101, 100));
    assert!(!m.should_validate(99, 100));
    let mut full = MetricsTracker { messages: u64::MAX, bytes: u64::MAX - 1, errors: u64::MAX, last_msg: None };
    full.record_message();
    full.record_error();
    full.record_bytes(5, 1);
    assert_eq!(full.messages, u64::MAX);
    assert_eq!(full.errors, u64::MAX);
    assert_eq!(full.bytes, u64::MAX);
    let r = ReplicationMetrics {
        messages_processed: 1,
        bytes_received: 2,
        errors_count: 3,
        last_message_time: None,
        connection_attempts: 4,
    };
    assert_eq!(r.connection_attempts, 4);
}

#[test]
fn shutdown_flag() {
    let mut f = ShutdownFlag::new();
    assert!(!f.is_requested());
    f.request();
    assert!(f.is_requested());
    f.request();
    assert!(f.is_requested());
    f.reset();
    assert!(!f.is_requested());
    assert!(!ShutdownFlag::default().is_requested());
    assert_eq!(MetricsTracker::default(), MetricsTracker::new());
    assert_eq!(MetricsTracker::default().bytes, 0);
}

#[test]
fn timestamps_count_from_the_year_2000() {
    assert_eq!(postgres_timestamp(946_684_800, 0), 0);
    assert_eq!(postgres_timestamp(946_684_801, 500_000), 1_500_000);
    assert_eq!(postgres_timestamp(0, 0), -946_684_800_000_000);
    assert_eq!(postgres_timestamp(1_640_995_200, 123_456), 694_310_400_123_456);
    assert_eq!(timestamp_since_epoch(Some((946_684_800 + 86_400, 1_999))), Some(86_400_000_001));
    assert_eq!(timestamp_since_epoch(Some((0, 0))), Some(-946_684_800_000_000));
}

#[test]
fn timestamps_are_rendered_in_utc() {
    assert_eq!(format_timestamp_from_pg(0).as_deref(), Some("2000-01-01 00:00:00.000 UTC"));
    assert_eq!(format_timestamp_from_pg(1_500_000).as_deref(), Some("2000-01-01 00:00:01.500 UTC"));
    assert_eq!(format_timestamp_from_pg(-1).as_deref(), Some("1999-12-31 23:59:59.999 UTC"));
    assert_eq!(format_timestamp_from_pg(-1_000_000).as_deref(), Some("1999-12-31 23:59:59.000 UTC"));
    assert_eq!(format_timestamp_from_pg(0x0002D6C8A5E00000).as_deref(), Some("2025-04-27 22:13:38.145 UTC"));
    assert_eq!(format_timestamp_from_pg(i64::MAX), None);
    assert_eq!(format_timestamp_from_pg(i64::MIN), None);
}

#[test]
fn numerals_and_words() {
    assert_eq!(signed_decimal_string(10), "10");
    assert_eq!(signed_decimal_string(1_000_000), "1000000");
    assert_eq!(signed_decimal_string(0), "0");
    assert_eq!(signed_decimal_string(-1), "-1");
    assert_eq!(signed_decimal_string(-128), "-128");
    assert_eq!(signed_decimal_string(i64::MIN), "-9223372036854775808");
    assert_eq!(signed_decimal_string(i64::MAX), "9223372036854775807");
    assert_eq!(bool_string(true), "true");
    assert_eq!(bool_string(false), "false");
}

#[test]
fn text_helpers() {
    assert!(is_blank("\u{2003}\u{a0}"));
    assert!(!is_blank("\u{2003}x\u{a0}"));
    assert!(is_blank(""));
    assert!(is_blank(" \t\r\n"));
    assert!(!is_blank(" x "));
    assert!(str_equal("", ""));
    assert!(str_equal("abc", "abc"));
    assert!(!str_equal("abc", "abd"));
    assert!(!str_equal("abc", "ab"));
    assert!(bytes_equal(&[1, 2], &[1, 2]));
    assert!(!bytes_equal(&[1, 2], &[2, 1]));
    assert!(starts_with("https://x", "https://"));
    assert!(starts_with("abc", ""));
    assert!(!starts_with("ab", "abc"));
    assert!(!starts_with("xbc", "a"));
    assert_eq!(truncated("hello", 5), "hello");
    assert_eq!(truncated("hello!", 5), "hello... (truncated)");
    assert_eq!(truncated("héllo", 2), "h... (truncated)");
    assert_eq!(truncated("héllo", 3), "hé... (truncated)");
    assert_eq!(truncated("héllo", 0), "... (truncated)");
    assert_eq!(truncated("", 0), "");
    assert_eq!(truncated("日本語", 4), "日... (truncated)");
}

#[test]
fn timestamps_of_offsets_from_1970() {
    assert_eq!(timestamp_since_epoch(None), None);
    assert_eq!(timestamp_since_epoch(Some((946_684_800, 0))), Some(0));
    assert_eq!(timestamp_since_epoch(Some((946_684_801, 500_000_999))), Some(1_500_000));
    assert_eq!(timestamp_since_epoch(Some((0, 999_999_999))), Some(-946_684_799_000_001));
    assert_eq!(timestamp_since_epoch(Some((0, 1_000_000_000))), None);
    assert_eq!(
        timestamp_since_epoch(Some((9_223_372_036_853, 999_999_999))),
        Some(9_223_372_036_853_999_999 - 946_684_800_000_000)
    );
    assert_eq!(timestamp_since_epoch(Some((9_223_372_036_854, 0))), None);
    assert_eq!(timestamp_since_epoch(Some((u64::MAX, 0))), None);
}
