//! The downstream side: the controlling client, its commands and its sessions.
pub mod codec;
pub mod laws;
pub mod model;
pub mod payloads;
pub mod registry;
pub mod session;
