//! Frame protocol engine for serial distance and presence sensors.
//!
//! The library builds outbound command frames, recovers report frames from a
//! fragmented inbound byte stream, and decodes report payloads into typed
//! readings. Every function here is verified; serial I/O lives outside it.

pub mod catalog;
pub mod frame;
pub mod ld2410c;
pub mod rd03d;
pub mod resync;
pub mod session;
pub mod tf_luna;
pub mod tof200f;
