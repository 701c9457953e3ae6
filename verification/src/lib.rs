//! Pane activity coloring, terminal activity status and local-control
//! decision logic, with their contracts.

pub mod activity_status;
pub mod agent_session;
pub mod blocks;
pub mod control;
pub mod mcp;
pub mod pane_settings;
pub mod pane_view;
pub mod setting_path;
pub mod text;
