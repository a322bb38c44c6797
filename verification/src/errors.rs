//! The failure taxonomy and what each failure means for the process.
//!
//! Every failure but one is recoverable: it ends at most the current session
//! of one source and is answered by rediscovery after a fixed delay, never
//! crossing to the other source. Only the startup-time construction failure
//! of the synthetic output device is fatal to the whole process, since no
//! forwarding is possible without it.

use vstd::prelude::*;

verus! {

/// Why a discovery attempt, a session, or startup failed.
#[derive(Clone, Copy, PartialEq, Eq, Structural, Debug)]
pub enum FailReason {
    /// No node in the scan range matched the configured name.
    SourceNotFound,
    /// The device was found but could not be exclusively captured.
    GrabRejected,
    /// Reading from the source failed (device removed mid-stream).
    ReadFailed,
    /// The synthetic output device rejected an event write.
    OutputWriteFailed,
    /// The synthetic output device could not be constructed at startup.
    OutputConstructionFailed,
}

impl FailReason {
    /// True exactly for the one failure that aborts the whole process;
    /// every other failure is contained in one source's supervisor loop
    /// and answered by retry.
    pub fn is_fatal(&self) -> (r: bool)
        ensures
            r == (*self == FailReason::OutputConstructionFailed),
    {
        match self {
            FailReason::OutputConstructionFailed => true,
            _ => false,
        }
    }
}

} // verus!
