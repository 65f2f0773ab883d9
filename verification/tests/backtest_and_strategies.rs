use candlechart::app_state::{window_title, WindowType};
use candlechart::account_type::{AccountType, AccountTypeState};
use candlechart::app_state::{StrategyEditingState, TradingMode};
use candlechart::data::trade_history::{OrderType, TradeType};
use candlechart::state::backtest::{backtest_trades_filename, BacktestState};

#[test]
fn backtest_playback() {
    let mut b = BacktestState::new();
    assert_eq!(b.playback_speed_ms, 100);
    let ts = vec![10, 20, 30];
    assert_eq!(b.current_candle_timestamp(&ts), None);
    b.set_enabled(true);
    b.start(20);
    assert!(b.is_playing);
    assert_eq!(b.current_candle_timestamp(&ts), Some(20));
    b.set_start_index(1);
    b.update_index(1);
    assert_eq!(b.current_candle_timestamp(&ts), Some(30));
    b.update_index(5);
    assert_eq!(b.current_candle_timestamp(&ts), Some(30));
    assert_eq!(b.current_candle_timestamp(&vec![]), None);
    b.pause();
    assert!(!b.is_playing);
    b.resume();
    b.stop_at_end();
    assert_eq!(b.current_index, 5);
    b.resume();
    b.stop();
    assert_eq!((b.current_index, b.start_index, b.is_playing), (0, None, false));
    b.resume();
    b.set_enabled(false);
    assert!(!b.is_playing);
    b.set_start_index(3);
    b.reset_playback();
    assert_eq!((b.current_index, b.start_index), (0, None));
}

#[test]
fn backtest_filename_replaces_odd_characters() {
    assert_eq!(backtest_trades_filename("RSI Strategy (14)"), "RSI_Strategy__14_-trades.json");
    assert_eq!(backtest_trades_filename("ma-cross_2"), "ma-cross_2-trades.json");
    assert_eq!(backtest_trades_filename("été"), "été-trades.json");
    assert_eq!(backtest_trades_filename(""), "-trades.json");
}

#[test]
fn toggling_timeframes() {
    let mut e = StrategyEditingState::new(true, vec!["1h".to_string(), "4h".to_string()], TradingMode::Both);
    e.toggle_timeframe("1h".to_string());
    assert_eq!(e.selected_timeframes, vec!["4h"]);
    e.toggle_timeframe("1d".to_string());
    assert_eq!(e.selected_timeframes, vec!["4h", "1d"]);
    assert_eq!(e.timeframes_to_apply(), Some(vec!["4h".to_string(), "1d".to_string()]));
    e.toggle_timeframe("4h".to_string());
    e.toggle_timeframe("1d".to_string());
    assert_eq!(e.timeframes_to_apply(), None);
    assert!(e.param_values.is_empty());
}

#[test]
fn trading_mode_filters_signals() {
    assert!(TradingMode::Both.allows_signal(true) && TradingMode::Both.allows_signal(false));
    assert!(TradingMode::BuyOnly.allows_signal(true) && !TradingMode::BuyOnly.allows_signal(false));
    assert!(!TradingMode::SellOnly.allows_signal(true) && TradingMode::SellOnly.allows_signal(false));
    assert_eq!(TradingMode::SellOnly.label(), "Ventes uniquement");
}

#[test]
fn account_type_switching() {
    let mut a = AccountTypeState::new();
    assert!(a.is_demo() && !a.is_real());
    a.set_account_type(AccountType::Real);
    assert!(a.is_real() && !a.is_demo());
    assert_eq!(AccountTypeState::default().account_type, AccountType::Demo);
    assert_ne!(TradeType::Buy, TradeType::Sell);
    assert_ne!(OrderType::Market, OrderType::Limit);
}

#[test]
fn window_titles() {
    assert_eq!(window_title(Some(WindowType::Settings), 3, 4, None), "Settings - Style Chart");
    assert_eq!(window_title(Some(WindowType::ProviderConfig), 0, 0, Some("BTCUSDT")), "Provider Configuration");
    assert_eq!(window_title(Some(WindowType::Downloads), 0, 5, None), "Téléchargements");
    assert_eq!(window_title(Some(WindowType::Downloads), 12, 5, None), "Téléchargements (12)");
    assert_eq!(window_title(Some(WindowType::Assets), 2, 0, None), "Actifs disponibles");
    assert_eq!(window_title(Some(WindowType::Assets), 2, 305, None), "Actifs disponibles (305)");
    assert_eq!(window_title(Some(WindowType::Main), 2, 3, Some("ETHUSDT")), "ETHUSDT");
    assert_eq!(window_title(None, 2, 3, None), "CandleChart");
}
