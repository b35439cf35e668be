//! Verified core of a terminal IPTV client for Xtream Codes providers.
pub mod cache;
pub mod cli;
pub mod commands;
pub mod config;
pub mod favourites;
pub mod menu;
pub mod player;
pub mod rofi;
pub mod ignore;
pub mod laws;
pub mod setup;
pub mod text;
pub mod xtream_api;
pub mod tui;
