//! Core logic of a door access-control edge node.
//!
//! The library covers the decision path of the controller: decoding
//! Wiegand-style reader frames, aggregating key presses into access
//! requests, the authoritative set of valid credentials with its
//! serialized mirror, reassembly of chunked transport payloads, the
//! door strike debounce policy, and the backend rules that derive
//! credential mutations from staff records.

pub mod access;
pub mod admin;
pub mod chunks;
pub mod door;
pub mod keypad;
pub mod network;
pub mod protocol;
pub mod store;
pub mod wiegand;

pub use protocol::{Audit, CodeType, UserAction};
pub use wiegand::Packet;
