//! Decoding and authentication for a family of small Bluetooth environmental
//! sensors.

pub mod cipher;
pub mod frame;
pub mod handshake;
pub mod identifiers;
pub mod store;
