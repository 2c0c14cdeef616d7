//! Protocol core for a small radio-linked flight controller whose attitude
//! telemetry (roll, pitch) drives a host pointer device.
//!
//! The crate holds the parts with real protocol state and binary-format
//! precision: the packet codec, the request/reply exchange filter, the
//! table-of-contents discovery walk, the logging-block handshake and the
//! telemetry stream decoder. Opening the radio link, waiting on it and
//! injecting pointer motion are left to the surrounding program, which
//! feeds this library plain values and acts on what it decides.

pub mod crtp;
pub mod errors;
pub mod exchange;
pub mod logging;
pub mod packet;
pub mod telemetry;
pub mod toc;
