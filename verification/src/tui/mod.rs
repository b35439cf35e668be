//! The terminal interface's state and rules.
pub mod list;
pub mod wrap;
pub mod adjust;
pub mod app;
pub mod screens;
pub mod loading;
pub mod playback;
pub mod vod;
pub mod keys;
