//! Settings store.
pub mod device_name;
pub mod keys;
pub mod round_trip;
pub mod settings;
pub mod store;
