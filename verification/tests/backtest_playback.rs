use candlechart::handlers::trading::{toggle_account_type, AccountSwitch};
use candlechart::account_type::{AccountType, AccountTypeState};
use candlechart::persistence::strategy_persistence::{strategy_type_of, StrategyType};
use candlechart::app_state::TradingMode;
use candlechart::state::backtest::BacktestState;
use candlechart::handlers::backtest::{
    select_backtest_strategy, stop_backtest, toggle_backtest_pause,
    find_candle_at_or_after, next_timestamp, plan_backtest_start, plan_backtest_tick, BacktestStart, BacktestTick,
};
use candlechart::handlers::strategies::{signal_order, SignalKind, SignalOrder};

fn hourly() -> Vec<i64> {
    vec![3600, 7200, 10800, 14400]
}

#[test]
fn finds_first_candle_at_or_after() {
    let ts = hourly();
    assert_eq!(find_candle_at_or_after(&ts, 0), Some(0));
    assert_eq!(find_candle_at_or_after(&ts, 7200), Some(1));
    assert_eq!(find_candle_at_or_after(&ts, 7201), Some(2));
    assert_eq!(find_candle_at_or_after(&ts, 20000), None);
    assert_eq!(find_candle_at_or_after(&vec![], 1), None);
}

#[test]
fn next_timestamp_adds_one_interval() {
    assert_eq!(next_timestamp(3600, "1h"), 7200);
    assert_eq!(next_timestamp(0, "15m"), 900);
    assert_eq!(next_timestamp(100, "1d"), 86500);
    assert_eq!(next_timestamp(100, "weird"), 3700);
}

#[test]
fn tick_is_idle_when_off_or_paused() {
    let ts = hourly();
    assert_eq!(plan_backtest_tick(false, true, Some(3600), &ts, "1h"), BacktestTick::Idle);
    assert_eq!(plan_backtest_tick(true, false, Some(3600), &ts, "1h"), BacktestTick::Idle);
}

#[test]
fn tick_stops_without_playhead_or_candles() {
    assert_eq!(plan_backtest_tick(true, true, None, &hourly(), "1h"), BacktestTick::Stop);
    assert_eq!(plan_backtest_tick(true, true, Some(3600), &vec![], "1h"), BacktestTick::Stop);
}

#[test]
fn tick_plays_and_advances() {
    let ts = hourly();
    assert_eq!(
        plan_backtest_tick(true, true, Some(3600), &ts, "1h"),
        BacktestTick::Play { index: 0, advance_to: Some(7200) }
    );
    assert_eq!(
        plan_backtest_tick(true, true, Some(5000), &ts, "1h"),
        BacktestTick::Play { index: 1, advance_to: Some(10800) }
    );
    // the next interval starts after the last but one candle: the last is played next
    assert_eq!(
        plan_backtest_tick(true, true, Some(10800), &ts, "1h"),
        BacktestTick::Play { index: 2, advance_to: Some(14400) }
    );
    // a daily step jumps past every candle: save and stop after playing this one
    assert_eq!(
        plan_backtest_tick(true, true, Some(3600), &ts, "1d"),
        BacktestTick::Play { index: 0, advance_to: None }
    );
}

#[test]
fn tick_stops_at_the_end() {
    let ts = hourly();
    assert_eq!(plan_backtest_tick(true, true, Some(14400), &ts, "1h"), BacktestTick::StopAtEnd { save: true });
    assert_eq!(plan_backtest_tick(true, true, Some(14000), &ts, "1h"), BacktestTick::StopAtEnd { save: true });
    assert_eq!(plan_backtest_tick(true, true, Some(20000), &ts, "1h"), BacktestTick::StopAtEnd { save: false });
}

#[test]
fn start_resumes_or_starts_afresh() {
    let ts = hourly();
    assert_eq!(plan_backtest_start(false, false, Some(3600), None, Some(&ts)), BacktestStart::Ignore);
    assert_eq!(plan_backtest_start(true, false, None, None, Some(&ts)), BacktestStart::Ignore);
    assert_eq!(plan_backtest_start(true, false, Some(3600), None, None), BacktestStart::Ignore);
    assert_eq!(plan_backtest_start(true, false, Some(3600), Some(7200), Some(&ts)), BacktestStart::Resume);
    assert_eq!(plan_backtest_start(true, true, Some(3600), Some(7200), Some(&ts)), BacktestStart::Start { at: 3600 });
    assert_eq!(plan_backtest_start(true, false, Some(3600), Some(99999), Some(&ts)), BacktestStart::Start { at: 3600 });
    assert_eq!(plan_backtest_start(true, false, Some(99999), None, Some(&ts)), BacktestStart::StartNotFound);
}

#[test]
fn signals_follow_mode_account_and_position() {
    assert_eq!(signal_order(SignalKind::Hold, TradingMode::Both, true, false), SignalOrder::Skip);
    assert_eq!(signal_order(SignalKind::Buy, TradingMode::Both, true, false), SignalOrder::OpenLong);
    assert_eq!(signal_order(SignalKind::Buy, TradingMode::SellOnly, true, false), SignalOrder::Skip);
    assert_eq!(signal_order(SignalKind::Buy, TradingMode::BuyOnly, false, false), SignalOrder::Skip);
    assert_eq!(signal_order(SignalKind::Sell, TradingMode::BuyOnly, true, true), SignalOrder::Skip);
    assert_eq!(signal_order(SignalKind::Sell, TradingMode::SellOnly, true, true), SignalOrder::ClosePosition);
    assert_eq!(signal_order(SignalKind::Sell, TradingMode::Both, true, false), SignalOrder::OpenShort);
    assert_eq!(signal_order(SignalKind::Sell, TradingMode::Both, false, true), SignalOrder::Skip);
}

#[test]
fn strategy_kinds_by_name() {
    assert_eq!(strategy_type_of("RSI Strategy"), Ok(StrategyType::RSI));
    assert_eq!(strategy_type_of("MA Crossover"), Ok(StrategyType::MovingAverageCrossover));
    assert_eq!(strategy_type_of("Moving Average Crossover"), Ok(StrategyType::MovingAverageCrossover));
    assert_eq!(strategy_type_of("Bollinger"), Err("Type de stratégie inconnu: Bollinger".to_string()));
}

#[test]
fn switching_account_kind() {
    let mut st = AccountTypeState::new();
    assert_eq!(toggle_account_type(&mut st, true), AccountSwitch::FetchAccountInfo);
    assert_eq!(st.account_type, AccountType::Real);
    assert_eq!(toggle_account_type(&mut st, true), AccountSwitch::Stay);
    assert_eq!(st.account_type, AccountType::Demo);
    assert_eq!(toggle_account_type(&mut st, false), AccountSwitch::ConfigureProvider);
    assert_eq!(st.account_type, AccountType::Real);
}

#[test]
fn backtest_buttons() {
    let mut st = BacktestState::new();
    toggle_backtest_pause(&mut st);
    assert!(!st.is_playing);
    assert!(!stop_backtest(&mut st));
    st.set_enabled(true);
    toggle_backtest_pause(&mut st);
    assert!(st.is_playing);
    toggle_backtest_pause(&mut st);
    assert!(!st.is_playing);
    st.start(3600);
    st.set_start_index(2);
    st.update_index(5);
    assert!(!stop_backtest(&mut st));
    assert!(!st.is_playing);
    assert_eq!(st.current_index, 0);
    assert_eq!(st.start_index, None);
    let known = vec!["rsi_1".to_string(), "ma_2".to_string()];
    assert!(!select_backtest_strategy(&mut st, Some("nope".to_string()), &known));
    assert_eq!(st.selected_strategy_id, None);
    assert!(select_backtest_strategy(&mut st, Some("ma_2".to_string()), &known));
    assert_eq!(st.selected_strategy_id, Some("ma_2".to_string()));
    assert!(stop_backtest(&mut st));
    assert!(select_backtest_strategy(&mut st, None, &known));
    assert_eq!(st.selected_strategy_id, None);
}
