//! The opaque passthrough event record.
//!
//! A raw input event is read verbatim from a source device and written
//! verbatim to the synthetic output device. The multiplexer never interprets
//! its fields; it only copies them, so the record is a plain fixed-shape
//! value: kind, code, value, and a timestamp in seconds and microseconds.

use vstd::prelude::*;

verus! {

/// One input change, forwarded verbatim: (type, code, value, timestamp).
#[derive(Clone, Copy, PartialEq, Eq, Structural, Debug)]
pub struct RawEvent {
    /// Event type, as the input subsystem reports it.
    pub kind: u16,
    /// Event code within the type.
    pub code: u16,
    /// Event value (axis position, key state, ...).
    pub value: i32,
    /// Timestamp, whole seconds.
    pub sec: i64,
    /// Timestamp, microseconds within the second.
    pub usec: i64,
}

} // verus!
