//! Voice-session orchestration for an audio node.
//!
//! A controlling client sends per-guild playback commands; for every guild the
//! node keeps one voice session with Discord alive. This crate holds the rules
//! of that arrangement as state machines over plain values: the two wire
//! protocols, the gateway handshake with its heartbeat and resume logic, the
//! per-guild session and the registry that routes commands to it. Sockets,
//! timers and tasks live with the caller, which feeds events in and carries the
//! returned commands out.
pub mod client;
pub mod discord;
pub mod json;
pub mod wire;
