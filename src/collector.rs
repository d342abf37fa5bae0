//! Decisions of the collection loop: when to fetch, reconnect, write, wait,
//! close and finalize, and how the process exits. The caller performs each
//! action and reports what happened as the next event.
use vstd::prelude::*;

verus! {

/// Exit code of a clean shutdown.
pub const EXIT_CLEAN: i32 = 0;

/// Exit code after an unrecoverable failure.
pub const EXIT_FAILURE: i32 = 1;

/// Exit code when a second interrupt arrives before shutdown completed.
pub const EXIT_FORCED: i32 = 6;

/// Where the loop stands.
#[derive(Clone, Copy, Debug, PartialEq, Eq, Structural)]
pub enum Phase {
    /// A fetch is under way; `retry` when it follows a reconnect.
    Fetching { retry: bool },
    /// The broken session is being closed and a new one opened.
    Reconnecting,
    /// The snapshot is being rendered, written and flushed.
    Writing,
    /// Waiting up to one poll interval for a shutdown request.
    Waiting,
    /// The session is being closed before the output is finalized.
    Closing { failed: bool },
    /// The output stream is being finalized.
    Finalizing { failed: bool },
    /// The run is over; the process exits with `code`.
    Done { code: i32 },
}

/// What the caller is asked to do next.
#[derive(Clone, Copy, Debug, PartialEq, Eq, Structural)]
pub enum Action {
    Fetch,
    Reconnect,
    Write,
    Wait,
    CloseConnection,
    FinalizeOutput,
    Exit { code: i32 },
}

/// What happened when the caller performed the last action.
#[derive(Clone, Copy, Debug, PartialEq, Eq, Structural)]
pub enum Event {
    FetchSucceeded,
    FetchFailed,
    Connected,
    ConnectFailed,
    /// The block was written and flushed; `elapsed_nanos` is the time since start.
    Written { elapsed_nanos: u64 },
    /// Rendering or writing the block failed.
    WriteFailed,
    WaitTimedOut,
    ShutdownRequested,
    ShutdownChannelClosed,
    Closed,
    Finalized,
    FinalizeFailed,
}

/// The action that a phase asks for.
pub open spec fn action_of(p: Phase) -> Action {
    match p {
        Phase::Fetching { .. } => Action::Fetch,
        Phase::Reconnecting => Action::Reconnect,
        Phase::Writing => Action::Write,
        Phase::Waiting => Action::Wait,
        Phase::Closing { .. } => Action::CloseConnection,
        Phase::Finalizing { .. } => Action::FinalizeOutput,
        Phase::Done { code } => Action::Exit { code },
    }
}

/// The phase after `e` happened in phase `p`, with uptime cap `max_uptime`
/// (nanoseconds). An event that does not belong to the phase changes nothing.
pub open spec fn next_phase(p: Phase, max_uptime: u64, e: Event) -> Phase {
    match (p, e) {
        (Phase::Fetching { .. }, Event::FetchSucceeded) => Phase::Writing,
        (Phase::Fetching { retry }, Event::FetchFailed) => if retry {
            Phase::Closing { failed: true }
        } else {
            Phase::Reconnecting
        },
        (Phase::Reconnecting, Event::Connected) => Phase::Fetching { retry: true },
        (Phase::Reconnecting, Event::ConnectFailed) => Phase::Finalizing { failed: true },
        (Phase::Writing, Event::Written { elapsed_nanos }) => if elapsed_nanos > max_uptime {
            Phase::Closing { failed: false }
        } else {
            Phase::Waiting
        },
        (Phase::Writing, Event::WriteFailed) => Phase::Closing { failed: true },
        (Phase::Waiting, Event::WaitTimedOut) => Phase::Fetching { retry: false },
        (Phase::Waiting, Event::ShutdownRequested) => Phase::Closing { failed: false },
        (Phase::Waiting, Event::ShutdownChannelClosed) => Phase::Closing { failed: false },
        (Phase::Closing { failed }, Event::Closed) => Phase::Finalizing { failed },
        (Phase::Finalizing { failed }, Event::Finalized) => Phase::Done {
            code: if failed { EXIT_FAILURE } else { EXIT_CLEAN },
        },
        (Phase::Finalizing { .. }, Event::FinalizeFailed) => Phase::Done { code: EXIT_FAILURE },
        _ => p,
    }
}

/// The phase after a whole sequence of events, in order.
pub open spec fn phase_after(p: Phase, max_uptime: u64, events: Seq<Event>) -> Phase
    decreases events.len(),
{
    if events.len() == 0 {
        p
    } else {
        next_phase(phase_after(p, max_uptime, events.drop_last()), max_uptime, events.last())
    }
}

/// The phases of an ending run: no fetch or connect is attempted from them.
pub open spec fn is_winding_down(p: Phase) -> bool {
    p is Closing || p is Finalizing || p is Done
}

/// The phases of a run that ends in failure.
pub open spec fn is_failing(p: Phase) -> bool {
    p == (Phase::Closing { failed: true }) || p == (Phase::Finalizing { failed: true }) || (
    p is Done && p->code != EXIT_CLEAN)
}

/// The loop's state: its phase and the uptime cap of the run.
pub struct Collector {
    pub phase: Phase,
    pub max_uptime_nanos: u64,
}

impl Collector {
    /// A run that starts with its first fetch.
    pub fn new(max_uptime_nanos: u64) -> (r: Collector)
        ensures
            r.phase == (Phase::Fetching { retry: false }),
            r.max_uptime_nanos == max_uptime_nanos,
    {
        Collector { phase: Phase::Fetching { retry: false }, max_uptime_nanos }
    }

    /// The action that the current phase asks for.
    pub fn action(&self) -> (a: Action)
        ensures
            a == action_of(self.phase),
    {
        match self.phase {
            Phase::Fetching { .. } => Action::Fetch,
            Phase::Reconnecting => Action::Reconnect,
            Phase::Writing => Action::Write,
            Phase::Waiting => Action::Wait,
            Phase::Closing { .. } => Action::CloseConnection,
            Phase::Finalizing { .. } => Action::FinalizeOutput,
            Phase::Done { code } => Action::Exit { code },
        }
    }

    /// Takes in what happened and returns the next action to perform.
    pub fn step(&mut self, e: Event) -> (a: Action)
        ensures
            final(self).max_uptime_nanos == old(self).max_uptime_nanos,
            final(self).phase == next_phase(old(self).phase, old(self).max_uptime_nanos, e),
            a == action_of(final(self).phase),
    {
        let next = match (self.phase, e) {
            (Phase::Fetching { .. }, Event::FetchSucceeded) => Phase::Writing,
            (Phase::Fetching { retry }, Event::FetchFailed) => if retry {
                Phase::Closing { failed: true }
            } else {
                Phase::Reconnecting
            },
            (Phase::Reconnecting, Event::Connected) => Phase::Fetching { retry: true },
            (Phase::Reconnecting, Event::ConnectFailed) => Phase::Finalizing { failed: true },
            (Phase::Writing, Event::Written { elapsed_nanos }) => if elapsed_nanos
                > self.max_uptime_nanos {
                Phase::Closing { failed: false }
            } else {
                Phase::Waiting
            },
            (Phase::Writing, Event::WriteFailed) => Phase::Closing { failed: true },
            (Phase::Waiting, Event::WaitTimedOut) => Phase::Fetching { retry: false },
            (Phase::Waiting, Event::ShutdownRequested) => Phase::Closing { failed: false },
            (Phase::Waiting, Event::ShutdownChannelClosed) => Phase::Closing { failed: false },
            (Phase::Closing { failed }, Event::Closed) => Phase::Finalizing { failed },
            (Phase::Finalizing { failed }, Event::Finalized) => Phase::Done {
                code: if failed {
                    EXIT_FAILURE
                } else {
                    EXIT_CLEAN
                },
            },
            (Phase::Finalizing { .. }, Event::FinalizeFailed) => Phase::Done { code: EXIT_FAILURE },
            _ => self.phase,
        };
        self.phase = next;
        self.action()
    }
}

/// A failed fetch is followed by exactly one reconnect and one more fetch;
/// when that fetch fails too, or the reconnect does, the run winds down
/// with a failure.
pub proof fn lemma_single_retry(max_uptime: u64)
    ensures
        next_phase(Phase::Fetching { retry: false }, max_uptime, Event::FetchFailed)
            == Phase::Reconnecting,
        next_phase(Phase::Reconnecting, max_uptime, Event::Connected) == (Phase::Fetching {
            retry: true,
        }),
        next_phase(Phase::Fetching { retry: true }, max_uptime, Event::FetchFailed) == (
        Phase::Closing { failed: true }),
        next_phase(Phase::Reconnecting, max_uptime, Event::ConnectFailed) == (Phase::Finalizing {
            failed: true,
        }),
{
}

/// Once a run winds down, no sequence of events leads to another fetch or
/// reconnect, and a failed run never exits cleanly.
pub proof fn lemma_no_attempt_after_wind_down(p: Phase, max_uptime: u64, events: Seq<Event>)
    requires
        is_winding_down(p),
    ensures
        is_winding_down(phase_after(p, max_uptime, events)),
        action_of(phase_after(p, max_uptime, events)) != Action::Fetch,
        action_of(phase_after(p, max_uptime, events)) != Action::Reconnect,
        is_failing(p) ==> is_failing(phase_after(p, max_uptime, events)),
    decreases events.len(),
{
    if events.len() > 0 {
        lemma_no_attempt_after_wind_down(p, max_uptime, events.drop_last());
    }
}

} // verus!
