//! Decisions taken on user and timer events: backtest playback and strategy signals.
pub mod backtest;
pub mod strategies;
pub mod series;
pub mod trading;
