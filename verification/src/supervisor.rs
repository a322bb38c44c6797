//! The connection supervisor state machine.
//!
//! One supervisor per configured source keeps at most one forwarding session
//! alive for that source, forever. It alternates between `Searching` (no
//! session; discovery attempts, retried after a fixed delay) and `Connected`
//! (exactly one session running). Any failure — discovery, grab, read, or
//! write — puts it back to `Searching` with the same fixed delay; there is
//! no retry limit and no terminal state, matching hot-pluggable hardware.

use vstd::prelude::*;

use crate::errors::FailReason;

verus! {

/// Whether a session is active for this source.
#[derive(Clone, Copy, PartialEq, Eq, Structural, Debug)]
pub enum SupervisorState {
    /// No session; discovery attempts are running.
    Searching,
    /// Exactly one forwarding session is running.
    Connected,
}

/// What the runtime must do next for this source.
#[derive(Clone, Copy, PartialEq, Eq, Structural, Debug)]
pub enum SupervisorAction {
    /// Discovery succeeded: construct and run one forwarding session on the
    /// resolved device; the run blocks until the session fails.
    StartSession,
    /// Sleep the fixed retry delay, then attempt discovery again.
    RetryDelay,
}

/// What the runtime reports back to the supervisor.
#[derive(Clone, Copy, PartialEq, Eq, Structural, Debug)]
pub enum SupervisorEvent {
    /// A discovery attempt finished; true means a device was resolved.
    Discovery(bool),
    /// The running session failed for this reason.
    SessionEnd(FailReason),
}

/// Which events can reach the supervisor in which state: discovery outcomes
/// only while searching, session ends only while connected.
pub open spec fn event_allowed(s: SupervisorState, e: SupervisorEvent) -> bool {
    match e {
        SupervisorEvent::Discovery(_) => s == SupervisorState::Searching,
        SupervisorEvent::SessionEnd(_) => s == SupervisorState::Connected,
    }
}

/// The state after an allowed event.
pub open spec fn next_state(s: SupervisorState, e: SupervisorEvent) -> SupervisorState {
    match e {
        SupervisorEvent::Discovery(found) => if found {
            SupervisorState::Connected
        } else {
            SupervisorState::Searching
        },
        SupervisorEvent::SessionEnd(_) => SupervisorState::Searching,
    }
}

/// The action an allowed event provokes.
pub open spec fn action_of(s: SupervisorState, e: SupervisorEvent) -> SupervisorAction {
    match e {
        SupervisorEvent::Discovery(found) => if found {
            SupervisorAction::StartSession
        } else {
            SupervisorAction::RetryDelay
        },
        SupervisorEvent::SessionEnd(_) => SupervisorAction::RetryDelay,
    }
}

/// The state after a whole sequence of events.
pub open spec fn run(s: SupervisorState, events: Seq<SupervisorEvent>) -> SupervisorState
    decreases events.len(),
{
    if events.len() == 0 {
        s
    } else {
        next_state(run(s, events.drop_last()), events.last())
    }
}

/// One source's supervisor.
pub struct Supervisor {
    /// Whether a session is active.
    pub state: SupervisorState,
}

impl Supervisor {
    /// A supervisor starts searching: no session exists yet.
    pub fn new() -> (s: Self)
        ensures
            s.state == SupervisorState::Searching,
    {
        Supervisor { state: SupervisorState::Searching }
    }

    /// Outcome of one discovery attempt. Success starts the one session;
    /// failure means another attempt after the fixed delay. Either way the
    /// process goes on: discovery failure never terminates anything.
    pub fn on_discovery(&mut self, found: bool) -> (a: SupervisorAction)
        requires
            old(self).state == SupervisorState::Searching,
        ensures
            final(self).state == next_state(old(self).state, SupervisorEvent::Discovery(found)),
            a == action_of(old(self).state, SupervisorEvent::Discovery(found)),
            found ==> final(self).state == SupervisorState::Connected && a
                == SupervisorAction::StartSession,
            !found ==> final(self).state == SupervisorState::Searching && a
                == SupervisorAction::RetryDelay,
    {
        if found {
            self.state = SupervisorState::Connected;
            SupervisorAction::StartSession
        } else {
            SupervisorAction::RetryDelay
        }
    }

    /// The running session failed. Whatever the reason — grab rejected, read
    /// failed, write failed — the answer is the same: back to searching,
    /// after the fixed delay.
    pub fn on_session_end(&mut self, reason: FailReason) -> (a: SupervisorAction)
        requires
            old(self).state == SupervisorState::Connected,
        ensures
            final(self).state == next_state(
                old(self).state,
                SupervisorEvent::SessionEnd(reason),
            ),
            a == action_of(old(self).state, SupervisorEvent::SessionEnd(reason)),
            final(self).state == SupervisorState::Searching,
            a == SupervisorAction::RetryDelay,
    {
        self.state = SupervisorState::Searching;
        SupervisorAction::RetryDelay
    }
}

/// At most one session per source: a session is started only by an allowed
/// event in `Searching` — never while one is active — and starting it is
/// what makes the state `Connected`; while `Connected`, the only allowed
/// event is the end of the running session.
pub proof fn lemma_single_session(s: SupervisorState, e: SupervisorEvent)
    requires
        event_allowed(s, e),
    ensures
        action_of(s, e) == SupervisorAction::StartSession ==> s == SupervisorState::Searching
            && next_state(s, e) == SupervisorState::Connected,
        s == SupervisorState::Connected ==> action_of(s, e) != SupervisorAction::StartSession,
        s == SupervisorState::Connected ==> e is SessionEnd,
{
}

/// Discovery retries forever: under any run of failed discovery attempts the
/// supervisor is still `Searching` at every step, each attempt answers with
/// the same fixed retry delay, and no step ends the process — there is no
/// terminal state to reach.
pub proof fn lemma_search_retries_forever(events: Seq<SupervisorEvent>)
    requires
        forall|i: int|
            0 <= i < events.len() ==> events[i] == SupervisorEvent::Discovery(false),
    ensures
        forall|i: int|
            0 <= i <= events.len() ==> run(SupervisorState::Searching, #[trigger] events.take(i))
                == SupervisorState::Searching,
        forall|i: int|
            0 <= i < events.len() ==> action_of(
                run(SupervisorState::Searching, #[trigger] events.take(i)),
                events[i],
            ) == SupervisorAction::RetryDelay,
    decreases events.len(),
{
    if events.len() > 0 {
        let head = events.drop_last();
        lemma_search_retries_forever(head);
        assert forall|i: int| 0 <= i <= events.len() implies run(
            SupervisorState::Searching,
            #[trigger] events.take(i),
        ) == SupervisorState::Searching by {
            if i < events.len() {
                assert(events.take(i) =~= head.take(i));
            } else {
                assert(events.take(i) =~= events);
                assert(events.drop_last() =~= head.take(events.len() - 1));
            }
        }
    }
}

} // verus!
