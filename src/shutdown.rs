//! Cooperative shutdown: an interrupt asks the loop to stop at its next poll
//! point; a second one while that request is still pending ends the process.
//! Also the teardown decision for a database session.
use crate::collector::EXIT_FORCED;
use vstd::prelude::*;

verus! {

/// The state of the shutdown request channel, as the interrupt handler sees it.
#[derive(Clone, Copy, Debug, PartialEq, Eq, Structural)]
pub enum ShutdownState {
    /// No interrupt yet.
    Armed,
    /// A notice has been posted to the loop.
    Notified,
    /// The notice was taken, or the loop no longer listens.
    ConsumedOrClosed,
}

/// What the interrupt handler must do.
#[derive(Clone, Copy, Debug, PartialEq, Eq, Structural)]
pub enum InterruptResponse {
    /// Post one notice for the loop to find at its next poll point.
    PostNotice,
    /// End the process at once with `code`, skipping cleanup.
    Terminate { code: i32 },
}

/// The state and response after an interrupt arrives in state `s`.
pub open spec fn interrupt_outcome(s: ShutdownState) -> (ShutdownState, InterruptResponse) {
    if s == ShutdownState::Armed {
        (ShutdownState::Notified, InterruptResponse::PostNotice)
    } else {
        (s, InterruptResponse::Terminate { code: EXIT_FORCED })
    }
}

impl ShutdownState {
    pub fn new() -> (r: ShutdownState)
        ensures
            r == ShutdownState::Armed,
    {
        ShutdownState::Armed
    }

    /// An interrupt arrived: the first one posts a notice, any later one
    /// asks for immediate termination.
    pub fn on_interrupt(&mut self) -> (r: InterruptResponse)
        ensures
            (*final(self), r) == interrupt_outcome(*old(self)),
    {
        match *self {
            ShutdownState::Armed => {
                *self = ShutdownState::Notified;
                InterruptResponse::PostNotice
            },
            _ => InterruptResponse::Terminate { code: EXIT_FORCED },
        }
    }

    /// The loop took the notice, or stopped listening.
    pub fn on_consumed(&mut self)
        ensures
            *final(self) == ShutdownState::ConsumedOrClosed,
    {
        *self = ShutdownState::ConsumedOrClosed;
    }
}

/// Only the first interrupt posts a notice: any interrupt after it, whatever
/// happened in between, terminates the process with the forced exit code.
pub proof fn lemma_second_interrupt_terminates(s: ShutdownState, consumed: bool)
    ensures
        ({
            let first = interrupt_outcome(s).0;
            let between = if consumed { ShutdownState::ConsumedOrClosed } else { first };
            interrupt_outcome(between).1 == (InterruptResponse::Terminate { code: EXIT_FORCED })
                && interrupt_outcome(between).0 == between
        }),
{
}

/// What closing a database session calls for.
#[derive(Clone, Copy, Debug, PartialEq, Eq, Structural)]
pub enum CloseStep {
    /// The session is already closed: nothing to do.
    Skip,
    /// Release the prepared statement and terminate the session.
    Terminate,
}

/// Whether a database session is still open.
#[derive(Clone, Copy, Debug, PartialEq, Eq, Structural)]
pub struct SessionState {
    pub open: bool,
}

/// The state and step after closing a session in state `s`.
pub open spec fn close_outcome(s: SessionState) -> (SessionState, CloseStep) {
    (SessionState { open: false }, if s.open { CloseStep::Terminate } else { CloseStep::Skip })
}

impl SessionState {
    /// Closes the session: only an open one is terminated.
    pub fn close(&mut self) -> (r: CloseStep)
        ensures
            (*final(self), r) == close_outcome(*old(self)),
    {
        let step = if self.open {
            CloseStep::Terminate
        } else {
            CloseStep::Skip
        };
        self.open = false;
        step
    }
}

/// Closing is idempotent: closing a closed session changes nothing and
/// does nothing, and a second close after any first one is such a case.
pub proof fn lemma_close_idempotent(s: SessionState)
    ensures
        !s.open ==> close_outcome(s) == (s, CloseStep::Skip),
        close_outcome(close_outcome(s).0) == (close_outcome(s).0, CloseStep::Skip),
{
}

} // verus!
