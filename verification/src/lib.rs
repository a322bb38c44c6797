//! Core of a two-source input multiplexer: discovering named source devices
//! among a bounded set of device nodes, capturing them exclusively, merging
//! their event streams into one synthetic output device, and recovering when
//! a source disappears.
//!
//! The library holds the decision logic, verified: name matching, catalog
//! scanning, the forwarding worker and connection supervisor state machines,
//! the output sink's event log model, and the synthetic device's capability
//! set. Device I/O and threading live outside, driven by these machines.

use vstd::prelude::*;

pub mod capabilities;
pub mod errors;
pub mod events;
pub mod names;
pub mod scan;
pub mod sink;
pub mod supervisor;
pub mod worker;

verus! {

/// Fixed delay, in milliseconds, between two discovery attempts after a
/// discovery or session failure.
pub const RETRY_DELAY_MS: u64 = 3000;

/// Fixed pause, in milliseconds, between two read cycles of a forwarding
/// worker; throttles CPU under idle input.
pub const READ_PAUSE_MS: u64 = 10;

} // verus!
