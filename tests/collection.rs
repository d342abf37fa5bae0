use psd::collector::{Action, Collector, Event, Phase, EXIT_CLEAN, EXIT_FAILURE, EXIT_FORCED};
use psd::shutdown::{CloseStep, InterruptResponse, SessionState, ShutdownState};

fn run(c: &mut Collector, events: &[Event]) -> Vec<Action> {
    events.iter().map(|e| c.step(*e)).collect()
}

#[test]
fn normal_cycle_waits_then_fetches_again() {
    let mut c = Collector::new(1_000);
    assert_eq!(c.action(), Action::Fetch);
    let acts = run(&mut c, &[Event::FetchSucceeded, Event::Written { elapsed_nanos: 10 }, Event::WaitTimedOut]);
    assert_eq!(acts, vec![Action::Write, Action::Wait, Action::Fetch]);
    assert_eq!(c.phase, Phase::Fetching { retry: false });
}

#[test]
fn scenario_c_one_failure_then_recovery() {
    let mut c = Collector::new(1_000);
    let acts = run(
        &mut c,
        &[Event::FetchFailed, Event::Connected, Event::FetchSucceeded, Event::Written { elapsed_nanos: 5 }],
    );
    assert_eq!(acts, vec![Action::Reconnect, Action::Fetch, Action::Write, Action::Wait]);
    let reconnects = acts.iter().filter(|a| **a == Action::Reconnect).count();
    assert_eq!(reconnects, 1);
    // a later failure gets its own single retry
    let acts = run(&mut c, &[Event::WaitTimedOut, Event::FetchFailed]);
    assert_eq!(acts, vec![Action::Fetch, Action::Reconnect]);
}

#[test]
fn scenario_d_two_failures_finalize_and_exit_nonzero() {
    let mut c = Collector::new(1_000);
    let acts = run(
        &mut c,
        &[Event::FetchFailed, Event::Connected, Event::FetchFailed, Event::Closed, Event::Finalized],
    );
    assert_eq!(
        acts,
        vec![Action::Reconnect, Action::Fetch, Action::CloseConnection, Action::FinalizeOutput, Action::Exit {
            code: EXIT_FAILURE
        }]
    );
    assert_ne!(EXIT_FAILURE, 0);
}

#[test]
fn reconnect_failure_still_finalizes() {
    let mut c = Collector::new(1_000);
    let acts = run(&mut c, &[Event::FetchFailed, Event::ConnectFailed, Event::Finalized]);
    assert_eq!(acts, vec![Action::Reconnect, Action::FinalizeOutput, Action::Exit { code: EXIT_FAILURE }]);
}

#[test]
fn scenario_e_interrupt_during_wait_exits_cleanly() {
    let mut c = Collector::new(1_000);
    let acts = run(
        &mut c,
        &[
            Event::FetchSucceeded,
            Event::Written { elapsed_nanos: 1 },
            Event::ShutdownRequested,
            Event::Closed,
            Event::Finalized,
        ],
    );
    assert_eq!(
        acts,
        vec![Action::Write, Action::Wait, Action::CloseConnection, Action::FinalizeOutput, Action::Exit {
            code: EXIT_CLEAN
        }]
    );
    assert!(!acts.contains(&Action::Fetch));
}

#[test]
fn closed_shutdown_channel_exits_cleanly() {
    let mut c = Collector::new(1_000);
    run(&mut c, &[Event::FetchSucceeded, Event::Written { elapsed_nanos: 1 }]);
    assert_eq!(c.step(Event::ShutdownChannelClosed), Action::CloseConnection);
}

#[test]
fn max_uptime_ends_run_after_write() {
    let mut c = Collector::new(1_000);
    let acts = run(&mut c, &[Event::FetchSucceeded, Event::Written { elapsed_nanos: 1_000 }]);
    assert_eq!(acts, vec![Action::Write, Action::Wait]);
    let acts = run(&mut c, &[Event::WaitTimedOut, Event::FetchSucceeded, Event::Written { elapsed_nanos: 1_001 }]);
    assert_eq!(acts, vec![Action::Fetch, Action::Write, Action::CloseConnection]);
    let acts = run(&mut c, &[Event::Closed, Event::Finalized]);
    assert_eq!(acts, vec![Action::FinalizeOutput, Action::Exit { code: EXIT_CLEAN }]);
}

#[test]
fn write_failure_is_fatal() {
    let mut c = Collector::new(1_000);
    let acts = run(&mut c, &[Event::FetchSucceeded, Event::WriteFailed, Event::Closed, Event::Finalized]);
    assert_eq!(
        acts,
        vec![Action::Write, Action::CloseConnection, Action::FinalizeOutput, Action::Exit { code: EXIT_FAILURE }]
    );
}

#[test]
fn finalize_failure_on_clean_path_is_fatal() {
    let mut c = Collector::new(0);
    let acts = run(&mut c, &[Event::FetchSucceeded, Event::Written { elapsed_nanos: 1 }, Event::Closed, Event::FinalizeFailed]);
    assert_eq!(acts.last(), Some(&Action::Exit { code: EXIT_FAILURE }));
}

#[test]
fn unexpected_event_changes_nothing() {
    let mut c = Collector::new(1_000);
    assert_eq!(c.step(Event::Closed), Action::Fetch);
    assert_eq!(c.phase, Phase::Fetching { retry: false });
    let acts = run(&mut c, &[Event::FetchFailed, Event::Connected, Event::FetchFailed, Event::Connected, Event::FetchSucceeded]);
    assert_eq!(acts[2..], [Action::CloseConnection, Action::CloseConnection, Action::CloseConnection]);
}

#[test]
fn first_interrupt_notifies_second_terminates() {
    let mut s = ShutdownState::new();
    assert_eq!(s.on_interrupt(), InterruptResponse::PostNotice);
    assert_eq!(s, ShutdownState::Notified);
    assert_eq!(s.on_interrupt(), InterruptResponse::Terminate { code: EXIT_FORCED });
    assert_eq!(EXIT_FORCED, 6);
}

#[test]
fn interrupt_after_consumption_terminates() {
    let mut s = ShutdownState::new();
    s.on_interrupt();
    s.on_consumed();
    assert_eq!(s, ShutdownState::ConsumedOrClosed);
    assert_eq!(s.on_interrupt(), InterruptResponse::Terminate { code: EXIT_FORCED });
    assert_eq!(s, ShutdownState::ConsumedOrClosed);
}

#[test]
fn close_is_idempotent() {
    let mut s = SessionState { open: true };
    assert_eq!(s.close(), CloseStep::Terminate);
    assert!(!s.open);
    assert_eq!(s.close(), CloseStep::Skip);
    assert_eq!(s, SessionState { open: false });
}
