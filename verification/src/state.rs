//! Application state: panels, notifications, indicator settings, backtest playback.
pub mod bottom_panel_sections;
pub mod notifications;
pub mod indicator_params;
pub mod backtest;
pub mod loaders;
pub mod ui_state;
