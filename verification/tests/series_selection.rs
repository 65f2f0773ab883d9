use candlechart::handlers::series::{
    find_series, restore_asset_symbol, series_for_asset, series_to_restore, SeriesKey,
};
use candlechart::persistence::selected_assets_persistence::toggle_asset_selection;
use std::collections::HashSet;

fn key(symbol: &str, interval: &str) -> SeriesKey {
    SeriesKey { symbol: symbol.to_string(), interval: interval.to_string() }
}

fn loaded() -> Vec<SeriesKey> {
    vec![key("BTCUSDT", "1h"), key("ETHUSDT", "15m"), key("ETHUSDT", "1h"), key("SOLUSDT", "1d")]
}

#[test]
fn finds_first_matching_series() {
    let keys = loaded();
    let h = "1h".to_string();
    assert_eq!(find_series(&keys, Some(&h), None), Some(0));
    let eth = vec!["ETHUSDT".to_string()];
    assert_eq!(find_series(&keys, None, Some(&eth)), Some(1));
    assert_eq!(find_series(&keys, Some(&h), Some(&eth)), Some(2));
    let w = "1w".to_string();
    assert_eq!(find_series(&keys, Some(&w), None), None);
}

#[test]
fn asset_prefers_active_interval() {
    let keys = loaded();
    assert_eq!(series_for_asset(&keys, &"ETHUSDT".to_string(), &"1h".to_string()), Some(2));
    assert_eq!(series_for_asset(&keys, &"ETHUSDT".to_string(), &"4h".to_string()), Some(1));
    assert_eq!(series_for_asset(&keys, &"SOLUSDT".to_string(), &"1h".to_string()), Some(3));
    assert_eq!(series_for_asset(&keys, &"XRPUSDT".to_string(), &"1h".to_string()), None);
}

#[test]
fn restore_prefers_selected_then_saved_then_any() {
    let keys = loaded();
    let h = "1h".to_string();
    let selected = vec!["ETHUSDT".to_string()];
    assert_eq!(series_to_restore(&keys, &h, &selected, None), Some(2));
    let btc = "BTCUSDT".to_string();
    assert_eq!(series_to_restore(&keys, &h, &selected, Some(&btc)), Some(2));
    assert_eq!(series_to_restore(&keys, &h, &vec![], Some(&"ETHUSDT".to_string())), Some(2));
    assert_eq!(series_to_restore(&keys, &h, &vec!["XRPUSDT".to_string()], Some(&btc)), Some(0));
    assert_eq!(series_to_restore(&keys, &h, &vec![], None), Some(0));
    assert_eq!(series_to_restore(&keys, &"1w".to_string(), &selected, Some(&btc)), None);
}

#[test]
fn remembered_symbol_after_restore() {
    let sel = vec!["ETHUSDT".to_string(), "BTCUSDT".to_string()];
    assert_eq!(
        restore_asset_symbol(Some("BTCUSDT".to_string()), Some("ETHUSDT".to_string()), &sel, "BTCUSDT".to_string()),
        Some("ETHUSDT".to_string())
    );
    assert_eq!(
        restore_asset_symbol(Some("BTCUSDT".to_string()), Some("XRPUSDT".to_string()), &sel, "ETHUSDT".to_string()),
        Some("BTCUSDT".to_string())
    );
    assert_eq!(restore_asset_symbol(None, None, &sel, "ETHUSDT".to_string()), Some("ETHUSDT".to_string()));
    assert_eq!(restore_asset_symbol(None, None, &sel, "SOLUSDT".to_string()), None);
    assert_eq!(restore_asset_symbol(None, None, &vec![], "ETHUSDT".to_string()), None);
    assert_eq!(
        restore_asset_symbol(Some("SOLUSDT".to_string()), None, &sel, "ETHUSDT".to_string()),
        Some("SOLUSDT".to_string())
    );
}

#[test]
fn toggling_twice_restores_selection() {
    let mut set: HashSet<String> = HashSet::new();
    set.insert("BTCUSDT".to_string());
    assert!(toggle_asset_selection(&mut set, "ETHUSDT".to_string()));
    assert!(set.contains("ETHUSDT"));
    assert_eq!(set.len(), 2);
    assert!(!toggle_asset_selection(&mut set, "ETHUSDT".to_string()));
    assert!(!set.contains("ETHUSDT"));
    assert_eq!(set.len(), 1);
    assert!(!toggle_asset_selection(&mut set, "BTCUSDT".to_string()));
    assert!(set.is_empty());
}
