//! Decisions of the host event loop and of the interrupt-signal handler.
//!
//! The host's loop delivers lifecycle events strictly in order; this module
//! fixes, for each event, the next control flow, the shutdown transition and
//! the side action the host must carry out.

use vstd::prelude::*;

use crate::startup::{trip_spec, ExitWatchdog};
use crate::CustomEvent;

verus! {

/// Failures of the event-loop handler itself.  The handler never fails
/// today, and no code constructs this value; its callers only record the
/// possibility.
#[derive(Clone, Copy, Debug, PartialEq, Eq, Structural)]
pub enum EvloopError {
    /// Reserved for future handler failures; never produced.
    Internal,
}

/// A window event, reduced to what the handler distinguishes.
#[derive(Clone, Copy, Debug, PartialEq, Eq, Structural)]
pub enum WindowEventKind {
    /// The user asked the window to close.
    CloseRequested,
    /// Any other window event.
    Other,
}

/// One event delivered by the host loop.
#[derive(Debug)]
pub enum LoopEvent {
    /// The loop just started; one-time setup runs now.
    InitStart,
    /// An event of the host window.
    Window(WindowEventKind),
    /// An event injected from another context.
    User(CustomEvent),
    /// Anything else the host delivers.
    Other,
}

/// What the host loop does after the current event is handled.
#[derive(Clone, Copy, Debug, PartialEq, Eq, Structural)]
pub enum LoopControl {
    /// Block until the next event arrives.
    Wait,
    /// Leave the loop and report this exit status.
    ExitWithCode(i32),
}

/// A side effect the host must perform for the handler.
#[derive(Clone, Copy, Debug, PartialEq, Eq, Structural)]
pub enum HostAction {
    /// Nothing beyond the returned control flow.
    NoAction,
    /// Install the interrupt-signal handler (once, at loop start).
    InstallInterruptHandler,
    /// Deliver the single wake signal to the watchdog waiter.
    WakeWatchdog,
}

/// What one interrupt signal leads to, given how many were delivered before:
/// the first trips the graceful shutdown, the second fails fast, any later
/// one aborts outright.
pub open spec fn interrupt_action_spec(prior_signals: u64) -> crate::startup::ProcessAction {
    if prior_signals == 0 {
        crate::startup::ProcessAction::BeginTeardown
    } else if prior_signals == 1 {
        crate::startup::ProcessAction::FailFast
    } else {
        crate::startup::ProcessAction::AbortNow
    }
}

/// The interrupt-signal handler's decision.  `prior_signals` is the count of
/// interrupts delivered before this one; the handler is the single place
/// where the retry budget is enforced.
pub fn on_interrupt(prior_signals: u64) -> (a: crate::startup::ProcessAction)
    ensures
        a == interrupt_action_spec(prior_signals),
{
    if prior_signals == 0 {
        crate::startup::ProcessAction::BeginTeardown
    } else if prior_signals == 1 {
        crate::startup::ProcessAction::FailFast
    } else {
        crate::startup::ProcessAction::AbortNow
    }
}

/// Handles one event of the host loop.
///
/// Loop start installs the interrupt handler.  A close request trips the
/// shutdown handle and leaves the loop with status 0, waking the watchdog
/// waiter if this trip won the race.  An injected interrupt notice leaves
/// the loop with status 0 (its trip already happened in the signal handler).
/// Everything else waits for the next event.  The handler itself never
/// fails.
pub fn handle_evloop_event(
    control_flow: &mut LoopControl,
    event: LoopEvent,
    exit_watchdog: &mut ExitWatchdog,
) -> (r: Result<HostAction, EvloopError>)
    ensures
        r is Ok,
        match event {
            LoopEvent::InitStart => {
                &&& r == Result::<HostAction, EvloopError>::Ok(HostAction::InstallInterruptHandler)
                &&& *final(control_flow) == LoopControl::Wait
                &&& *final(exit_watchdog) == *old(exit_watchdog)
            },
            LoopEvent::Window(WindowEventKind::CloseRequested) => {
                &&& *final(control_flow) == LoopControl::ExitWithCode(0)
                &&& *final(exit_watchdog) == trip_spec(*old(exit_watchdog)).0
                &&& r == Result::<HostAction, EvloopError>::Ok(
                    if trip_spec(*old(exit_watchdog)).1 {
                        HostAction::WakeWatchdog
                    } else {
                        HostAction::NoAction
                    },
                )
            },
            LoopEvent::User(CustomEvent::ExitCtrlC) => {
                &&& r == Result::<HostAction, EvloopError>::Ok(HostAction::NoAction)
                &&& *final(control_flow) == LoopControl::ExitWithCode(0)
                &&& *final(exit_watchdog) == *old(exit_watchdog)
            },
            _ => {
                &&& r == Result::<HostAction, EvloopError>::Ok(HostAction::NoAction)
                &&& *final(control_flow) == LoopControl::Wait
                &&& *final(exit_watchdog) == *old(exit_watchdog)
            },
        },
{
    *control_flow = LoopControl::Wait;
    match event {
        LoopEvent::InitStart => Ok(HostAction::InstallInterruptHandler),
        LoopEvent::Window(WindowEventKind::CloseRequested) => {
            let wake = exit_watchdog.trip();
            *control_flow = LoopControl::ExitWithCode(0);
            if wake {
                Ok(HostAction::WakeWatchdog)
            } else {
                Ok(HostAction::NoAction)
            }
        },
        LoopEvent::User(CustomEvent::ExitCtrlC) => {
            *control_flow = LoopControl::ExitWithCode(0);
            Ok(HostAction::NoAction)
        },
        _ => Ok(HostAction::NoAction),
    }
}

} // verus!
