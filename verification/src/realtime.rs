//! Live data: naming of exchange series, fetch windows, gap planning and batch downloads.
pub mod realtime_utils;
pub mod download;
pub mod gaps;
pub mod updates;
