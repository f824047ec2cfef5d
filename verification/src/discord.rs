//! The upstream side: Discord's voice gateway.
pub mod codec;
pub mod heartbeat;
pub mod laws;
pub mod link;
pub mod model;
pub mod payloads;
pub mod policy;
