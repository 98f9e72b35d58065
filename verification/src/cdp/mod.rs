//! The Chrome DevTools Protocol transport.

pub mod client;
pub mod js_bridge;
pub mod probe;
pub mod protocol;
