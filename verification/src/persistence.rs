//! State saved between runs (the files themselves are read and written by the application).
pub mod selected_assets_persistence;
pub mod timeframe_persistence;
pub mod strategy_persistence;
pub mod assets_persistence;
