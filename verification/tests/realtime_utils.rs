use candlechart::realtime::realtime_utils::unix_seconds;
use candlechart::realtime::realtime_utils::series_name;
use candlechart::realtime::realtime_utils::{
    calculate_candles_back_timestamp, calculate_recent_gap_threshold, compute_fetch_since,
    current_timestamp, extract_interval, interval_to_seconds, is_binance_format,
};

#[test]
fn test_is_binance_format_valid() {
    assert!(is_binance_format("BTCUSDT_1h"));
    assert!(is_binance_format("ETHUSDT_15m"));
    assert!(is_binance_format("BNB_1d"));
}

#[test]
fn test_is_binance_format_invalid() {
    assert!(!is_binance_format("invalid"));
    assert!(!is_binance_format("_1h"));
    assert!(!is_binance_format("BTCUSDT_"));
    assert!(!is_binance_format("BTC_USDT_1h"));
    assert!(!is_binance_format(""));
}

#[test]
fn test_extract_interval() {
    assert_eq!(extract_interval("BTCUSDT_1h"), "1h");
    assert_eq!(extract_interval("ETHUSDT_15m"), "15m");
    assert_eq!(extract_interval("invalid"), "invalid");
}

#[test]
fn test_compute_fetch_since_recent() {
    let now = 1000000;
    let last = now - 1800;
    let (since, is_stale) = compute_fetch_since(last, now, "1h");
    assert_eq!(since, last);
    assert!(!is_stale);
}

#[test]
fn test_compute_fetch_since_stale() {
    let now = 1000000;
    let last = now - 100000;
    let (since, is_stale) = compute_fetch_since(last, now, "1h");
    assert!(is_stale);
    assert!(since < last);
}

#[test]
fn fetch_since_stale_goes_back_one_hundred_candles() {
    let (since, stale) = compute_fetch_since(0, 1_000_000, "15m");
    assert!(stale);
    assert_eq!(since, 1_000_000 - 100 * 900);
}

#[test]
fn fetch_since_exactly_two_intervals_is_stale() {
    let (since, stale) = compute_fetch_since(1_000_000 - 7200, 1_000_000, "1h");
    assert!(stale);
    assert_eq!(since, 1_000_000 - 360_000);
}

#[test]
fn extract_interval_takes_text_after_last_underscore() {
    assert_eq!(extract_interval("BTC_USDT_4h"), "4h");
    assert_eq!(extract_interval("BTCUSDT_"), "");
    assert_eq!(extract_interval(""), "");
}

#[test]
fn binance_format_accepts_non_ascii_symbols() {
    assert!(is_binance_format("ÉTÉ_1h"));
    assert!(!is_binance_format("_"));
    assert!(is_binance_format("A_B"));
}

#[test]
fn interval_seconds_of_exchange_intervals() {
    assert_eq!(interval_to_seconds("1m"), 60);
    assert_eq!(interval_to_seconds("15m"), 900);
    assert_eq!(interval_to_seconds("1h"), 3600);
    assert_eq!(interval_to_seconds("4h"), 14400);
    assert_eq!(interval_to_seconds("1d"), 86400);
    assert_eq!(interval_to_seconds("1w"), 604800);
    assert_eq!(interval_to_seconds("1M"), 2592000);
    assert_eq!(interval_to_seconds("weird"), 3600);
    assert_eq!(calculate_candles_back_timestamp("5m", 2), 600);
}

#[test]
fn recent_gap_threshold_adds_a_tenth_with_five_minute_floor() {
    assert_eq!(calculate_recent_gap_threshold(3600), 3960);
    assert_eq!(calculate_recent_gap_threshold(60), 300);
    assert_eq!(calculate_recent_gap_threshold(0), 300);
    assert_eq!(calculate_recent_gap_threshold(86400), 95040);
    assert_eq!(calculate_recent_gap_threshold(-15), 300);
}

#[test]
fn current_timestamp_is_after_2020() {
    assert!(current_timestamp().unwrap() > 1_577_836_800);
}

#[test]
fn series_name_round_trip() {
    let name = series_name("BTCUSDT", "4h");
    assert_eq!(name, "BTCUSDT_4h");
    assert!(is_binance_format(&name));
    assert_eq!(extract_interval(&name), "4h");
}

#[test]
fn unix_seconds_are_whole_seconds() {
    assert_eq!(unix_seconds(&std::time::Duration::from_secs(1_700_000_000)), 1_700_000_000);
    assert_eq!(unix_seconds(&std::time::Duration::new(5, 999_999_999)), 5);
    assert_eq!(unix_seconds(&std::time::Duration::from_millis(999)), 0);
}
