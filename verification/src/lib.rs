use vstd::prelude::*;

pub mod account_type;
pub mod state;
pub mod text;
pub mod realtime;
pub mod error_handling;
pub mod data;
pub mod persistence;
pub mod bottom_panel_sections;
pub mod app_state;
pub mod handlers;
