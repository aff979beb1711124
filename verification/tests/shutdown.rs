use kurzlink::event_loop::{
    handle_evloop_event, on_interrupt, HostAction, LoopControl, LoopEvent, WindowEventKind,
};
use kurzlink::startup::{
    download_target, run, watchdog_due, ExitWatchdog, ProcessAction, ShutdownCoordinator,
    ShutdownEvent, ShutdownState, WATCHDOG_GRACE_MS,
};
use kurzlink::{CustomEvent, MainError};

#[test]
fn watchdog_aborts_no_earlier_and_no_later_than_the_grace_period() {
    assert!(!watchdog_due(0, 0));
    assert!(!watchdog_due(0, WATCHDOG_GRACE_MS - 1));
    assert!(watchdog_due(0, WATCHDOG_GRACE_MS));
    assert!(!watchdog_due(5, WATCHDOG_GRACE_MS + 4));
    assert!(watchdog_due(5, WATCHDOG_GRACE_MS + 5));
    assert!(watchdog_due(5, u64::MAX));
    assert!(!watchdog_due(u64::MAX, 0));
}

#[test]
fn two_interrupts_fail_fast_before_the_watchdog() {
    let mut c = ShutdownCoordinator::new();
    assert_eq!(c.step(ShutdownEvent::Interrupt), ProcessAction::BeginTeardown);
    assert_eq!(c.state, ShutdownState::Tripped);
    let second = c.step(ShutdownEvent::Interrupt);
    assert_eq!(second, ProcessAction::FailFast);
    assert_ne!(second, ProcessAction::AbortNow);
    assert_eq!(c.state, ShutdownState::Aborting);
    assert_eq!(c.step(ShutdownEvent::Interrupt), ProcessAction::AbortNow);
    assert_eq!(c.signals, 3);
}

#[test]
fn window_close_trips_exactly_once() {
    let mut c = ShutdownCoordinator::new();
    assert_eq!(c.step(ShutdownEvent::WindowClose), ProcessAction::BeginTeardown);
    assert_eq!(c.step(ShutdownEvent::WindowClose), ProcessAction::Continue);
    assert_eq!(c.state, ShutdownState::Tripped);
}

#[test]
fn stalled_teardown_is_aborted_by_the_watchdog() {
    let mut c = ShutdownCoordinator::new();
    assert_eq!(c.step(ShutdownEvent::WindowClose), ProcessAction::BeginTeardown);
    assert_eq!(c.step(ShutdownEvent::WatchdogTimeout), ProcessAction::AbortNow);
    assert_eq!(c.state, ShutdownState::Aborting);
}

#[test]
fn spurious_timeout_while_running_is_ignored() {
    let mut c = ShutdownCoordinator::new();
    assert_eq!(c.step(ShutdownEvent::WatchdogTimeout), ProcessAction::Continue);
    assert_eq!(c.state, ShutdownState::Running);
}

#[test]
fn trip_hands_out_the_wake_signal_once() {
    let mut w = ExitWatchdog::new();
    assert!(w.trip());
    assert!(!w.trip());
    assert!(!w.trip());
}

#[test]
fn interrupt_escalation_table() {
    assert_eq!(on_interrupt(0), ProcessAction::BeginTeardown);
    assert_eq!(on_interrupt(1), ProcessAction::FailFast);
    assert_eq!(on_interrupt(2), ProcessAction::AbortNow);
    assert_eq!(on_interrupt(7), ProcessAction::AbortNow);
}

#[test]
fn event_loop_close_request_exits_cleanly_and_wakes_the_watchdog() {
    let mut w = ExitWatchdog::new();
    let mut cf = LoopControl::Wait;

    let r = handle_evloop_event(&mut cf, LoopEvent::InitStart, &mut w);
    assert_eq!(r, Ok(HostAction::InstallInterruptHandler));
    assert_eq!(cf, LoopControl::Wait);

    let r = handle_evloop_event(&mut cf, LoopEvent::Window(WindowEventKind::CloseRequested), &mut w);
    assert_eq!(r, Ok(HostAction::WakeWatchdog));
    assert_eq!(cf, LoopControl::ExitWithCode(0));

    // A second close finds the watchdog already tripped.
    let r = handle_evloop_event(&mut cf, LoopEvent::Window(WindowEventKind::CloseRequested), &mut w);
    assert_eq!(r, Ok(HostAction::NoAction));
}

#[test]
fn event_loop_ignores_other_events() {
    let mut w = ExitWatchdog::new();
    let mut cf = LoopControl::ExitWithCode(1);
    let r = handle_evloop_event(&mut cf, LoopEvent::Other, &mut w);
    assert_eq!(r, Ok(HostAction::NoAction));
    assert_eq!(cf, LoopControl::Wait);

    let r = handle_evloop_event(&mut cf, LoopEvent::Window(WindowEventKind::Other), &mut w);
    assert_eq!(r, Ok(HostAction::NoAction));
    assert_eq!(cf, LoopControl::Wait);
    assert!(w.trip());
}

#[test]
fn injected_interrupt_notice_exits_cleanly() {
    let mut w = ExitWatchdog::new();
    let mut cf = LoopControl::Wait;
    let r = handle_evloop_event(&mut cf, LoopEvent::User(CustomEvent::ExitCtrlC), &mut w);
    assert_eq!(r, Ok(HostAction::NoAction));
    assert_eq!(cf, LoopControl::ExitWithCode(0));
    assert!(w.trip());
}

#[test]
fn session_outcome_mapping() {
    let mut w = ExitWatchdog::new();
    let (r, wake) = run(None, 0, &mut w);
    assert!(matches!(r, Ok(())));
    assert!(wake);

    let (r, wake) = run(None, 3, &mut w);
    assert!(matches!(r, Err(MainError::Exitcode(3))));
    assert!(!wake);

    let mut w = ExitWatchdog::new();
    let (r, _) = run(None, -1, &mut w);
    assert!(matches!(r, Err(MainError::Exitcode(-1))));

    let mut w = ExitWatchdog::new();
    let (r, _) = run(Some(kurzlink::event_loop::EvloopError::Internal), 0, &mut w);
    assert!(matches!(r, Err(MainError::EventLoop(_))));
}

#[test]
fn session_never_ends_with_the_handle_armed() {
    // Whatever happened before, the handle is disarmed once the session
    // outcome is fixed: a later trip reports no wake to deliver.
    let mut w = ExitWatchdog::new();
    let (_, wake) = run(None, 0, &mut w);
    assert!(wake);
    assert!(!w.trip());

    let mut w = ExitWatchdog::new();
    assert!(w.trip());
    let (_, wake) = run(None, 0, &mut w);
    assert!(!wake);
    assert!(!w.trip());
}

#[test]
fn download_target_resolution() {
    let r = download_target(b"wry://app.local/kurzlink.svg?q=https://example.org").unwrap();
    assert_eq!(r.0, b"kurzlink.svg");
    assert_eq!(r.1, b"svg");

    assert!(download_target(b"wry://app.local/kurzlink.svg").is_none());
    assert!(download_target(b"name?q=x").is_none());
    assert!(download_target(b"a/b?q=x").is_none());
}
