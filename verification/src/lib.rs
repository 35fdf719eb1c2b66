//! MAC-command processing engine of a LoRaWAN network server.
//!
//! The engine interprets control commands embedded in uplink frames,
//! mutates the server's authoritative view of a device's radio
//! configuration (the device session), and produces the corresponding
//! downlink control commands.

pub mod commands;
pub mod error;
pub mod reset;
pub mod session;
pub mod version;
