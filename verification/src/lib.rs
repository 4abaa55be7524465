//! Usage-widget library: browser cookie discovery, command-line handling and
//! the polling model behind a tray popup that shows plan usage.
pub mod text;
pub mod platform;
pub mod browser;
pub mod cookie_jar;
pub mod cli;
pub mod config;
pub mod usage_state;
pub mod crypto;
pub mod cookies;
pub mod detect;
pub mod resolve;
pub mod fetch;
pub mod paths;
pub mod tray;
pub mod idle;
pub mod display;
pub mod desktop;
pub mod popup;
