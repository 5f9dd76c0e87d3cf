//! Playback: what the player reports.
pub mod ingest_driver;
