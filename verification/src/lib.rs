//! Verified driver logic for the NEORV32 bootloader upload handshake.
//!
//! The library holds the protocol engine: it accumulates bytes received from
//! a serial transport, recognises the bootloader's textual triggers, and
//! decides which command bytes (and the firmware payload) must be written
//! back, with the delays the device needs. The surrounding program performs
//! the actual reads, writes and sleeps and feeds the results back in.

pub mod engine;
pub mod laws;
pub mod search;
