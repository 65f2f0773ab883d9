//! Data management: downloads of missing history.
pub mod download_manager;
pub mod trade_history;
pub mod data_loading;
