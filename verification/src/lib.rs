//! Core logic of a sensor link manager: a bridge between a wearable
//! heart-rate sensor and downstream consumers.
//!
//! The sensor streams telemetry as datagrams over an unreliable channel and
//! accepts commands over a reliable one.  This crate holds the verified core:
//! the binary packet codec, the heartbeat (liveness) monitor, the dispatch
//! bus, the listener and connection-manager state machines, and the OSC
//! relay encoding.  Socket and file I/O live outside, in a thin host layer
//! that feeds these functions plain values.
//!
//! Floating-point samples cross the wire as IEEE 754 single-precision values;
//! inside this crate each is carried by its 32-bit pattern, so that the codec
//! and the dispatch logic are verified without floating-point arithmetic.

pub mod bus;
pub mod codec;
pub mod heartbeat;
pub mod listener;
pub mod manager;
pub mod osc;
pub mod session;

use vstd::prelude::*;

verus! {

/// The control-channel port the device listens on.
pub const SENSOR_TCP_PORT: u16 = 12345;

} // verus!
