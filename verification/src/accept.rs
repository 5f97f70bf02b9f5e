//! The state machine driving the accept sequence.
//!
//! The accept sequence is a restartable, possibly-infinite producer of
//! accepted-and-upgraded sockets. Its state is one slot: either no
//! accept-and-upgrade operation is in flight, or exactly one is. Each
//! pull first starts an operation if the slot is empty, then acts on
//! what polling that operation reports; a failed attempt only clears
//! the slot, so the next pull starts a fresh attempt — a single failure
//! never terminates the sequence.

use vstd::prelude::*;

verus! {

/// The accept sequence's slot: whether an accept-and-upgrade operation
/// is currently in flight. At most one ever is.
#[derive(Clone, Copy, Debug, PartialEq, Eq, Structural)]
pub struct AcceptSequenceState {
    /// Whether an operation is in flight.
    pub in_flight: bool,
}

/// What polling the in-flight accept-and-upgrade operation reported.
#[derive(Clone, Copy, Debug, PartialEq, Eq, Structural)]
pub enum AcceptEvent {
    /// The operation has not completed yet.
    NotReady,
    /// A connection was accepted and upgraded to a socket.
    Upgraded,
    /// The TCP accept or the WebSocket upgrade failed.
    Failed,
}

/// What the driver of the sequence does next.
#[derive(Clone, Copy, Debug, PartialEq, Eq, Structural)]
pub enum AcceptAction {
    /// Keep the operation in flight and report "not ready" without
    /// blocking the caller.
    Wait,
    /// Clear the slot and yield the upgraded socket.
    YieldSocket,
    /// Clear the slot and start a fresh attempt: the failure is skipped,
    /// not surfaced, and the sequence continues.
    Restart,
}

/// The transition the sequence makes when the operation in its slot
/// (started on this pull if the slot was empty) reports `event`.
pub open spec fn spec_accept_step(event: AcceptEvent) -> (AcceptSequenceState, AcceptAction) {
    match event {
        AcceptEvent::NotReady => (
            AcceptSequenceState { in_flight: true },
            AcceptAction::Wait,
        ),
        AcceptEvent::Upgraded => (
            AcceptSequenceState { in_flight: false },
            AcceptAction::YieldSocket,
        ),
        AcceptEvent::Failed => (
            AcceptSequenceState { in_flight: false },
            AcceptAction::Restart,
        ),
    }
}

impl AcceptSequenceState {
    /// A fresh sequence: its slot is empty.
    pub fn new() -> (r: AcceptSequenceState)
        ensures
            !r.in_flight,
    {
        AcceptSequenceState { in_flight: false }
    }

    /// Whether a new operation must be started on this pull: exactly
    /// when none is in flight, preserving the single-slot invariant.
    pub fn must_start(&self) -> (r: bool)
        ensures
            r == !self.in_flight,
    {
        !self.in_flight
    }

    /// One pull of the sequence, after the slot has been filled if it
    /// was empty: acts on what polling the operation reported.
    pub fn step(self, event: AcceptEvent) -> (r: (AcceptSequenceState, AcceptAction))
        ensures
            r == spec_accept_step(event),
    {
        match event {
            AcceptEvent::NotReady => (
                AcceptSequenceState { in_flight: true },
                AcceptAction::Wait,
            ),
            AcceptEvent::Upgraded => (
                AcceptSequenceState { in_flight: false },
                AcceptAction::YieldSocket,
            ),
            AcceptEvent::Failed => (
                AcceptSequenceState { in_flight: false },
                AcceptAction::Restart,
            ),
        }
    }
}

/// Accept resilience: a failing attempt never ends the sequence. The
/// failure clears the slot without yielding termination, and a
/// following attempt that completes yields its socket as if no failure
/// had happened.
pub proof fn lemma_accept_resilience()
    ensures
        ({
            let (s1, a1) = spec_accept_step(AcceptEvent::Failed);
            let (s2, a2) = spec_accept_step(AcceptEvent::Upgraded);
            &&& a1 != AcceptAction::YieldSocket
            &&& a1 == AcceptAction::Restart
            &&& !s1.in_flight
            &&& a2 == AcceptAction::YieldSocket
        }),
{
}

} // verus!
