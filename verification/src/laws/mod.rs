//! What the operations are for, stated of their results.
//!
//! Each law speaks of calls: whatever a call with these arguments returns, or
//! leaves behind, has the property. A law over two calls takes the state that
//! the first one leaves as the state that the second one finds.
pub mod window;
pub mod menu;
pub mod layers;
pub mod frames;
pub mod reuse;
pub mod reports;
pub mod proxy;
pub mod workers;
pub mod playback;
pub mod startup;
pub mod settings;
pub mod texts;
pub mod boot;
pub mod backend;
