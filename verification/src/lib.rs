//! Request gating, activity tracking and the background-pipeline decisions
//! of the Replay Control companion server, as a verified library.
pub mod activity;
pub mod analytics;
pub mod app_state;
pub mod auth;
pub mod background;
pub mod cache;
pub mod core_api;
pub mod encoding;
pub mod favorites_view;
pub mod i18n;
pub mod identity;
pub mod images;
pub mod pipeline;
pub mod rest;
pub mod rom_cache;
pub mod server_fns;
pub mod status;
pub mod text;
pub mod titles;
pub mod types;
pub mod tuning;
pub mod update_flow;
pub mod update_script;
pub mod watcher;
