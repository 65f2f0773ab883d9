use std::collections::HashSet;
use candlechart::persistence::assets_persistence::select_new_assets;
use candlechart::persistence::selected_assets_persistence::SelectedAssetsPersistenceState;
use candlechart::persistence::timeframe_persistence::TimeframePersistenceState;
use candlechart::persistence::strategy_persistence::StrategyType;
use candlechart::state::indicator_params::RSIMethod;

#[test]
fn from_hashset_sorts_symbols() {
    let mut set = HashSet::new();
    set.insert("ETHUSDT".to_string());
    set.insert("BTCUSDT".to_string());
    set.insert("ADAUSDT".to_string());
    set.insert("Ébène".to_string());
    set.insert("btc".to_string());
    let st = SelectedAssetsPersistenceState::from_hashset(&set);
    assert_eq!(st.selected_symbols, vec!["ADAUSDT", "BTCUSDT", "ETHUSDT", "btc", "Ébène"]);
}

#[test]
fn to_hashset_round_trip() {
    let st = SelectedAssetsPersistenceState {
        selected_symbols: vec!["B".to_string(), "A".to_string(), "B".to_string()],
    };
    let set = st.to_hashset();
    assert_eq!(set.len(), 2);
    assert!(set.contains("A") && set.contains("B"));
    let back = SelectedAssetsPersistenceState::from_hashset(&set);
    assert_eq!(back.selected_symbols, vec!["A", "B"]);
    assert!(SelectedAssetsPersistenceState::default().selected_symbols.is_empty());
}

#[test]
fn new_assets_are_those_not_already_listed() {
    let existing = vec!["BTCUSDT".to_string(), "ETHUSDT".to_string()];
    let incoming = vec!["ETHUSDT".to_string(), "SOLUSDT".to_string(), "SOLUSDT".to_string(), "BTCUSDT".to_string()];
    assert_eq!(select_new_assets(&existing, &incoming), vec![1, 2]);
    assert_eq!(select_new_assets(&vec![], &incoming), vec![0, 1, 2, 3]);
}

#[test]
fn timeframe_default_is_one_hour() {
    let t = TimeframePersistenceState::default();
    assert_eq!(t.interval, "1h");
    assert!(t.symbol.is_none());
}

#[test]
fn rsi_method_names() {
    assert_eq!(RSIMethod::Wilder.as_str(), "Wilder");
    assert_eq!(RSIMethod::Simple.as_str(), "Simple");
    assert_eq!(RSIMethod::from_str("Simple"), Some(RSIMethod::Simple));
    assert_eq!(RSIMethod::from_str("Wilder"), Some(RSIMethod::Wilder));
    assert_eq!(RSIMethod::from_str("wilder"), None);
    assert_eq!(RSIMethod::default(), RSIMethod::Wilder);
    assert_ne!(StrategyType::RSI, StrategyType::MovingAverageCrossover);
}
