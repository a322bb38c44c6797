//! The forwarding worker state machine.
//!
//! One worker owns one exclusively-grabbed source device and relays its
//! events into the output sink until something fails. The machine here takes
//! the decisions; the runtime around it performs each returned action (grab,
//! blocking read, submit, pause) and reports the outcome back. Phases run
//! `Grabbing -> Streaming -> Failed(reason)`: there is no normal exit, the
//! only terminal phase is failure, and failure is always followed by a fresh
//! discovery cycle in the supervisor.

use vstd::prelude::*;

use crate::errors::FailReason;
use crate::events::RawEvent;

verus! {

/// Where a session stands.
#[derive(Clone, Copy, PartialEq, Eq, Structural, Debug)]
pub enum SessionPhase {
    /// Exclusive capture of the source has been requested.
    Grabbing,
    /// The source is captured; events are being read and relayed.
    Streaming,
    /// The session is over; the supervisor takes back control.
    Failed(FailReason),
}

/// What the runtime must do next for this worker.
#[derive(Clone, Copy, PartialEq, Eq, Structural, Debug)]
pub enum WorkerAction {
    /// Block on the source until a batch of events (possibly empty) arrives.
    ReadBatch,
    /// Submit this event to the output sink, alone, not batched.
    Submit(RawEvent),
    /// Pause for `READ_PAUSE_MS` before the next read.
    Pause,
    /// The session is over for this reason; return to the supervisor.
    EndSession(FailReason),
}

/// What `Submit` or `Pause` follows from a queue of events still to relay.
pub open spec fn relay_action(pending: Seq<RawEvent>) -> WorkerAction {
    if pending.len() == 0 {
        WorkerAction::Pause
    } else {
        WorkerAction::Submit(pending[0])
    }
}

/// One source's forwarding session: the phase, and the events read from the
/// source but not yet submitted to the sink, in read order.
pub struct ForwardingWorker {
    /// Where the session stands.
    pub phase: SessionPhase,
    /// Events read but not yet submitted, oldest first.
    pub pending: Vec<RawEvent>,
}

impl ForwardingWorker {
    /// A fresh session; the runtime must now attempt the exclusive grab.
    pub fn new() -> (w: Self)
        ensures
            w.phase == SessionPhase::Grabbing,
            w.pending@ == Seq::<RawEvent>::empty(),
    {
        ForwardingWorker { phase: SessionPhase::Grabbing, pending: Vec::new() }
    }

    /// Outcome of the exclusive grab: on success the session streams and the
    /// first read is due; on failure the session ends, recoverably.
    pub fn on_grab(&mut self, ok: bool) -> (a: WorkerAction)
        requires
            old(self).phase == SessionPhase::Grabbing,
        ensures
            final(self).pending@ == old(self).pending@,
            ok ==> final(self).phase == SessionPhase::Streaming && a == WorkerAction::ReadBatch,
            !ok ==> final(self).phase == SessionPhase::Failed(FailReason::GrabRejected) && a
                == WorkerAction::EndSession(FailReason::GrabRejected),
    {
        if ok {
            self.phase = SessionPhase::Streaming;
            WorkerAction::ReadBatch
        } else {
            self.phase = SessionPhase::Failed(FailReason::GrabRejected);
            WorkerAction::EndSession(FailReason::GrabRejected)
        }
    }

    /// Outcome of a blocking read: `Some(batch)` queues the batch, in read
    /// order, for one-by-one submission (an empty batch goes straight to the
    /// pause); `None` is a read failure and ends the session.
    pub fn on_read(&mut self, batch: Option<Vec<RawEvent>>) -> (a: WorkerAction)
        requires
            old(self).phase == SessionPhase::Streaming,
            old(self).pending@.len() == 0,
        ensures
            match batch {
                Some(events) => final(self).phase == SessionPhase::Streaming
                    && final(self).pending@ == events@
                    && a == relay_action(events@),
                None => final(self).phase == SessionPhase::Failed(FailReason::ReadFailed)
                    && final(self).pending@ == old(self).pending@
                    && a == WorkerAction::EndSession(FailReason::ReadFailed),
            },
    {
        match batch {
            Some(events) => {
                self.pending = events;
                if self.pending.len() == 0 {
                    WorkerAction::Pause
                } else {
                    WorkerAction::Submit(self.pending[0])
                }
            },
            None => {
                self.phase = SessionPhase::Failed(FailReason::ReadFailed);
                WorkerAction::EndSession(FailReason::ReadFailed)
            },
        }
    }

    /// Outcome of submitting the head of the queue: on success that event
    /// leaves the queue and the next one follows (or, the queue drained, the
    /// pause); on failure the session ends, recoverably.
    pub fn on_submit(&mut self, ok: bool) -> (a: WorkerAction)
        requires
            old(self).phase == SessionPhase::Streaming,
            old(self).pending@.len() > 0,
        ensures
            ok ==> final(self).phase == SessionPhase::Streaming
                && final(self).pending@ == old(self).pending@.drop_first()
                && a == relay_action(final(self).pending@),
            !ok ==> final(self).phase == SessionPhase::Failed(FailReason::OutputWriteFailed)
                && final(self).pending@ == old(self).pending@
                && a == WorkerAction::EndSession(FailReason::OutputWriteFailed),
    {
        if ok {
            self.pending.remove(0);
            proof {
                assert(self.pending@ =~= old(self).pending@.drop_first());
            }
            if self.pending.len() == 0 {
                WorkerAction::Pause
            } else {
                WorkerAction::Submit(self.pending[0])
            }
        } else {
            self.phase = SessionPhase::Failed(FailReason::OutputWriteFailed);
            WorkerAction::EndSession(FailReason::OutputWriteFailed)
        }
    }

    /// The pause between read cycles is over; the next blocking read is due.
    /// The pause happens after every read cycle, whether or not the cycle
    /// yielded events.
    pub fn on_pause_done(&mut self) -> (a: WorkerAction)
        requires
            old(self).phase == SessionPhase::Streaming,
            old(self).pending@.len() == 0,
        ensures
            *final(self) == *old(self),
            a == WorkerAction::ReadBatch,
    {
        WorkerAction::ReadBatch
    }
}

} // verus!
