//! Core of a desktop media client: settings, start-up decisions, the playback
//! ingest driver and the Wayland surface, popup and proxy state machines.
pub mod app;
pub mod bits;
pub mod config;
pub mod dropdown;
pub mod json;
pub mod laws;
pub mod platform_abi;
pub mod platform_install;
pub mod playback;
pub mod text;
pub mod wayland;
