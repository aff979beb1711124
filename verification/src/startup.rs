//! The shutdown/watchdog state machine.
//!
//! The host process has three parallel contexts: the main event loop, a
//! dedicated watchdog waiter, and interrupt-signal handlers.  Every decision
//! those contexts take is fixed here as a verified function from state and
//! event to next state and action; the host merely performs the actions
//! (waking the waiter, sleeping, aborting).

use vstd::prelude::*;

use crate::event_loop::EvloopError;
use crate::MainError;

verus! {

/// How long the watchdog waiter grants the graceful teardown path before it
/// forcibly aborts the process, in milliseconds.
pub const WATCHDOG_GRACE_MS: u64 = 10_000;

/// Lifecycle of the shutdown protocol.  Transitions are one-directional:
/// `Running` to `Tripped` to `Aborting`; the state never reverts.
#[derive(Clone, Copy, Debug, PartialEq, Eq, Structural)]
pub enum ShutdownState {
    /// No shutdown has been requested yet.
    Running,
    /// A graceful shutdown is in progress; the watchdog waiter is awake.
    Tripped,
    /// Forced termination is in progress; no further cleanup happens.
    Aborting,
}

/// Numeric rank of a lifecycle state, used to state that shutdown only ever
/// moves forward.
pub open spec fn state_rank(s: ShutdownState) -> int {
    match s {
        ShutdownState::Running => 0,
        ShutdownState::Tripped => 1,
        ShutdownState::Aborting => 2,
    }
}

/// The one-shot handle that wakes the watchdog waiter.  It stands for the
/// lock-guarded optional channel sender shared by every shutdown trigger:
/// `armed` records whether the wake signal is still available.  Exactly one
/// trip can take the signal; all later trips observe "already tripped".
#[derive(Debug)]
pub struct ExitWatchdog {
    armed: bool,
}

/// The trip transition: the wake signal is taken if it is still available.
pub closed spec fn trip_spec(w: ExitWatchdog) -> (ExitWatchdog, bool) {
    (ExitWatchdog { armed: false }, w.armed)
}

impl ExitWatchdog {
    /// Whether the wake signal has not been taken yet.
    pub closed spec fn is_armed(&self) -> bool {
        self.armed
    }

    /// A fresh handle whose wake signal is still available.
    pub fn new() -> (w: ExitWatchdog)
        ensures
            w.is_armed(),
    {
        ExitWatchdog { armed: true }
    }

    /// Requests a graceful shutdown.  Returns whether the caller won the race
    /// and must deliver the single wake signal to the watchdog waiter; every
    /// later call returns `false` and has no further effect.
    pub fn trip(&mut self) -> (wake: bool)
        ensures
            !final(self).is_armed(),
            wake == old(self).is_armed(),
            (*final(self), wake) == trip_spec(*old(self)),
    {
        let was_armed = self.armed;
        self.armed = false;
        was_armed
    }
}

/// The wake signal is taken at most once: whatever the starting state, after
/// one trip the handle is disarmed, and a second trip never reports a wake.
pub proof fn lemma_trip_at_most_once(w: ExitWatchdog)
    ensures
        !trip_spec(w).0.is_armed(),
        trip_spec(trip_spec(w).0).1 == false,
{
}

/// Events observed by the shutdown coordinator.
#[derive(Clone, Copy, Debug, PartialEq, Eq, Structural)]
pub enum ShutdownEvent {
    /// The host window was asked to close.
    WindowClose,
    /// One interrupt signal was delivered.
    Interrupt,
    /// An internal fatal error was hit.
    FatalError,
    /// The watchdog waiter's grace timer elapsed before the process exited.
    WatchdogTimeout,
}

/// What the host must do after a shutdown event was arbitrated.
#[derive(Clone, Copy, Debug, PartialEq, Eq, Structural)]
pub enum ProcessAction {
    /// Nothing; the event lost the race or carries no new information.
    Continue,
    /// Wake the watchdog waiter and start the orderly teardown.
    BeginTeardown,
    /// Crash intentionally: a second interrupt is operator impatience, and a
    /// second graceful attempt would mask a stuck shutdown.
    FailFast,
    /// Abort the process immediately, with no further cleanup.
    AbortNow,
}

/// The shutdown coordinator: the lifecycle state together with the count of
/// interrupt signals seen so far.  It arbitrates between graceful and forced
/// termination under concurrent triggers.
#[derive(Clone, Copy, Debug, PartialEq, Eq, Structural)]
pub struct ShutdownCoordinator {
    /// Current lifecycle state.
    pub state: ShutdownState,
    /// How many interrupt signals have been delivered; grows monotonically.
    pub signals: u64,
}

/// The coordinator's transition table.
///
/// The first lifecycle trigger (window close, first interrupt, fatal error)
/// moves `Running` to `Tripped` and begins the orderly teardown.  A second
/// interrupt while tripped fails fast; a third or later interrupt aborts
/// outright.  A watchdog timeout during teardown aborts.
pub open spec fn shutdown_step_spec(c: ShutdownCoordinator, e: ShutdownEvent) -> (ShutdownCoordinator, ProcessAction) {
    match e {
        ShutdownEvent::WindowClose | ShutdownEvent::FatalError => {
            if c.state == ShutdownState::Running {
                (ShutdownCoordinator { state: ShutdownState::Tripped, ..c }, ProcessAction::BeginTeardown)
            } else {
                (c, ProcessAction::Continue)
            }
        },
        ShutdownEvent::Interrupt => {
            let seen = if c.signals == u64::MAX {
                c.signals
            } else {
                (c.signals + 1) as u64
            };
            let bumped = ShutdownCoordinator { signals: seen, ..c };
            if c.signals == 0 {
                let tripped = if c.state == ShutdownState::Running {
                    ShutdownState::Tripped
                } else {
                    c.state
                };
                (ShutdownCoordinator { state: tripped, ..bumped }, ProcessAction::BeginTeardown)
            } else if c.signals == 1 {
                (
                    ShutdownCoordinator { state: ShutdownState::Aborting, ..bumped },
                    ProcessAction::FailFast,
                )
            } else {
                (
                    ShutdownCoordinator { state: ShutdownState::Aborting, ..bumped },
                    ProcessAction::AbortNow,
                )
            }
        },
        ShutdownEvent::WatchdogTimeout => {
            if c.state == ShutdownState::Running {
                (c, ProcessAction::Continue)
            } else {
                (ShutdownCoordinator { state: ShutdownState::Aborting, ..c }, ProcessAction::AbortNow)
            }
        },
    }
}

impl ShutdownCoordinator {
    /// A coordinator for a freshly started process.
    pub fn new() -> (c: ShutdownCoordinator)
        ensures
            c.state == ShutdownState::Running,
            c.signals == 0,
    {
        ShutdownCoordinator { state: ShutdownState::Running, signals: 0 }
    }

    /// Arbitrates one shutdown event and says what the host must do next.
    pub fn step(&mut self, e: ShutdownEvent) -> (a: ProcessAction)
        ensures
            (*final(self), a) == shutdown_step_spec(*old(self), e),
    {
        match e {
            ShutdownEvent::WindowClose | ShutdownEvent::FatalError => {
                if matches!(self.state, ShutdownState::Running) {
                    self.state = ShutdownState::Tripped;
                    ProcessAction::BeginTeardown
                } else {
                    ProcessAction::Continue
                }
            },
            ShutdownEvent::Interrupt => {
                let prior: u64 = self.signals;
                if prior < u64::MAX {
                    self.signals = prior + 1;
                }
                if prior == 0 {
                    if matches!(self.state, ShutdownState::Running) {
                        self.state = ShutdownState::Tripped;
                    }
                    ProcessAction::BeginTeardown
                } else if prior == 1 {
                    self.state = ShutdownState::Aborting;
                    ProcessAction::FailFast
                } else {
                    self.state = ShutdownState::Aborting;
                    ProcessAction::AbortNow
                }
            },
            ShutdownEvent::WatchdogTimeout => {
                if matches!(self.state, ShutdownState::Running) {
                    ProcessAction::Continue
                } else {
                    self.state = ShutdownState::Aborting;
                    ProcessAction::AbortNow
                }
            },
        }
    }
}

/// Shutdown only ever moves forward: no event takes the lifecycle state
/// backwards, and the signal count never shrinks.
pub proof fn lemma_shutdown_monotonic(c: ShutdownCoordinator, e: ShutdownEvent)
    ensures
        state_rank(shutdown_step_spec(c, e).0.state) >= state_rank(c.state),
        shutdown_step_spec(c, e).0.signals >= c.signals,
{
}

/// Two interrupt signals before teardown completes: the first begins the
/// orderly teardown, the second terminates through the fail-fast path - not
/// through the watchdog's forced abort.
pub proof fn lemma_second_interrupt_fails_fast(c: ShutdownCoordinator)
    requires
        c.state == ShutdownState::Running,
        c.signals == 0,
    ensures
        shutdown_step_spec(c, ShutdownEvent::Interrupt).1 == ProcessAction::BeginTeardown,
        shutdown_step_spec(
            shutdown_step_spec(c, ShutdownEvent::Interrupt).0,
            ShutdownEvent::Interrupt,
        ).1 == ProcessAction::FailFast,
        shutdown_step_spec(
            shutdown_step_spec(c, ShutdownEvent::Interrupt).0,
            ShutdownEvent::Interrupt,
        ).1 != ProcessAction::AbortNow,
{
}

/// Decides whether the watchdog waiter must abort the process: true exactly
/// when the grace period has elapsed since the wake signal arrived.  The
/// waiter polls this with its monotonic clock; the abort therefore comes no
/// earlier than the grace period and as soon as the waiter is next scheduled
/// after it.
pub fn watchdog_due(woken_at_ms: u64, now_ms: u64) -> (due: bool)
    ensures
        due <==> now_ms >= woken_at_ms + WATCHDOG_GRACE_MS,
{
    if now_ms < woken_at_ms {
        false
    } else {
        now_ms - woken_at_ms >= WATCHDOG_GRACE_MS
    }
}

/// Index of the first occurrence of `b` in `s`.
pub open spec fn idx_first(s: Seq<u8>, b: u8) -> Option<nat>
    decreases s.len(),
{
    if s.len() == 0 {
        None
    } else if s[0] == b {
        Some(0)
    } else {
        match idx_first(s.skip(1), b) {
            Some(i) => Some((i + 1) as nat),
            None => None,
        }
    }
}

/// Index of the last occurrence of `b` in `s`.
pub open spec fn idx_last(s: Seq<u8>, b: u8) -> Option<nat>
    decreases s.len(),
{
    if s.len() == 0 {
        None
    } else if s[s.len() - 1] == b {
        Some((s.len() - 1) as nat)
    } else {
        idx_last(s.take(s.len() - 1), b)
    }
}

/// What a requested download resolves to: the artifact's file name (after
/// the last `/`, before the `?`) and its extension (after the name's last
/// `.`).  `None` if the request URL has no query part, no path segment or
/// no extension; such a download is refused.
pub open spec fn download_target_spec(s: Seq<u8>) -> Option<(Seq<u8>, Seq<u8>)> {
    match idx_first(s, 63) {  // '?'
        None => None,
        Some(qm) => {
            let head = s.take(qm as int);
            match idx_last(head, 47) {  // '/'
                None => None,
                Some(sl) => {
                    let name = head.skip(sl as int + 1);
                    match idx_last(name, 46) {  // '.'
                        None => None,
                        Some(dot) => Some((name, name.skip(dot as int + 1))),
                    }
                },
            }
        },
    }
}

proof fn lemma_idx_first_bound(s: Seq<u8>, b: u8)
    ensures
        idx_first(s, b) is Some ==> idx_first(s, b).unwrap() < s.len(),
    decreases s.len(),
{
    if s.len() > 0 {
        lemma_idx_first_bound(s.skip(1), b);
    }
}

proof fn lemma_idx_last_bound(s: Seq<u8>, b: u8)
    ensures
        idx_last(s, b) is Some ==> idx_last(s, b).unwrap() < s.len(),
    decreases s.len(),
{
    if s.len() > 0 {
        lemma_idx_last_bound(s.take(s.len() - 1), b);
    }
}

fn idx_first_from(s: &[u8], from: usize, b: u8) -> (r: Option<usize>)
    requires
        from <= s@.len(),
    ensures
        match idx_first(s@.skip(from as int), b) {
            Some(i) => r == Some((from + i) as usize),
            None => r is None,
        },
    decreases s@.len() - from,
{
    let ghost t = s@.skip(from as int);
    if from == s.len() {
        None
    } else {
        proof {
            assert(t[0] == s@[from as int]);
        }
        if s[from] == b {
            Some(from)
        } else {
            proof {
                assert(t.skip(1) =~= s@.skip(from as int + 1));
            }
            idx_first_from(s, from + 1, b)
        }
    }
}

fn idx_last_to(s: &[u8], to: usize, b: u8) -> (r: Option<usize>)
    requires
        to <= s@.len(),
    ensures
        match idx_last(s@.take(to as int), b) {
            Some(i) => r == Some(i as usize),
            None => r is None,
        },
    decreases to,
{
    let ghost t = s@.take(to as int);
    if to == 0 {
        None
    } else {
        proof {
            assert(t[t.len() - 1] == s@[to - 1]);
        }
        if s[to - 1] == b {
            Some(to - 1)
        } else {
            proof {
                assert(t.take(t.len() - 1) =~= s@.take(to - 1));
            }
            idx_last_to(s, to - 1, b)
        }
    }
}

/// Resolves a requested download URL to the artifact's file name and
/// extension, or refuses it.  The host appends the name to the per-user
/// downloads directory and offers `*.<extension>` as the save dialog's
/// filter.
pub fn download_target(src: &[u8]) -> (r: Option<(Vec<u8>, Vec<u8>)>)
    ensures
        match download_target_spec(src@) {
            Some(t) => r is Some && r.unwrap().0@ == t.0 && r.unwrap().1@ == t.1,
            None => r is None,
        },
{
    let src_len: usize = src.len();
    proof {
        assert(src@.len() == src_len);
        assert(src@.skip(0) =~= src@);
        lemma_idx_first_bound(src@, 63);
    }
    let qm = match idx_first_from(src, 0, 63) {
        None => return None,
        Some(qm) => qm,
    };
    let head: &[u8] = vstd::slice::slice_subrange(src, 0, qm);
    proof {
        assert(head@ =~= src@.take(qm as int));
        assert(head@.take(head@.len() as int) =~= head@);
        lemma_idx_last_bound(head@, 47);
    }
    let sl = match idx_last_to(head, head.len(), 47) {
        None => return None,
        Some(sl) => sl,
    };
    let name: &[u8] = vstd::slice::slice_subrange(head, sl + 1, head.len());
    proof {
        assert(name@ =~= src@.take(qm as int).skip(sl as int + 1));
        assert(name@.take(name@.len() as int) =~= name@);
        lemma_idx_last_bound(name@, 46);
    }
    let dot = match idx_last_to(name, name.len(), 46) {
        None => return None,
        Some(dot) => dot,
    };
    let ext: &[u8] = vstd::slice::slice_subrange(name, dot + 1, name.len());
    proof {
        assert(ext@ =~= name@.skip(dot as int + 1));
    }
    Some((vstd::slice::slice_to_vec(name), vstd::slice::slice_to_vec(ext)))
}

/// Fixes the outcome of a finished host session.  The host performs the
/// surrounding work (logger setup, working directory, watchdog thread, the
/// window loop itself) and hands in what it observed: a recorded event-loop
/// failure, if any, and the loop's exit status.  An error wins; otherwise a
/// non-zero exit status is surfaced as `MainError::Exitcode`; a zero status
/// is a graceful exit.
///
/// The session's final trip of the shutdown handle happens here: whatever
/// the outcome, the handle ends disarmed, so once the window phase is over
/// the watchdog is guaranteed to have been woken (by this call or an
/// earlier trip) and a stuck teardown cannot hang the process.  The second
/// component says whether the caller must still deliver the wake signal.
pub fn run(
    loop_error: Option<EvloopError>,
    exitcode: i32,
    exit_watchdog: &mut ExitWatchdog,
) -> (r: (Result<(), MainError>, bool))
    ensures
        !final(exit_watchdog).is_armed(),
        r.1 == old(exit_watchdog).is_armed(),
        match loop_error {
            Some(e) => r.0 == Result::<(), MainError>::Err(MainError::EventLoop(e)),
            None => {
                if exitcode == 0 {
                    r.0 == Result::<(), MainError>::Ok(())
                } else {
                    r.0 == Result::<(), MainError>::Err(MainError::Exitcode(exitcode))
                }
            },
        },
{
    let wake = exit_watchdog.trip();
    let outcome = match loop_error {
        Some(e) => Err(MainError::EventLoop(e)),
        None => {
            if exitcode == 0 {
                Ok(())
            } else {
                Err(MainError::Exitcode(exitcode))
            }
        },
    };
    (outcome, wake)
}

} // verus!
