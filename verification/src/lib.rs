//! An on-demand QR-code content service: it turns a text payload (a URL)
//! into a scannable module matrix and serves that matrix in three output
//! encodings (vector markup, compressed raster, print-ready document),
//! together with the shutdown protocol that keeps the host process from
//! hanging indefinitely.

use vstd::prelude::*;

pub mod assets;
pub mod event_loop;
pub mod index_html;
pub mod qr;
pub mod query;
pub mod startup;

use crate::event_loop::EvloopError;

verus! {

/// Fatal, top-level failures: resource-lifecycle errors that terminate the
/// process with a descriptive cause, plus the recorded non-zero exit status
/// of the host session.
#[derive(Debug)]
pub enum MainError {
    /// The process-wide logger could not be initialized.
    Log,
    /// The host window could not be created.
    Window,
    /// The embedded web view could not be opened.
    Webview,
    /// The host session signalled a non-zero exit status.
    Exitcode(i32),
    /// The per-session temp directory could not be created.
    Tempdir,
    /// The per-user cache directory could not be resolved.
    Cachedir,
    /// The working directory could not be changed to the executable's home.
    ChangeWd,
    /// The event loop reported a failure.
    EventLoop(EvloopError),
    /// The watchdog waiter thread could not be started.
    ExitWatchdog,
}

/// Events injected into the host event loop from other execution contexts.
#[derive(Debug)]
pub enum CustomEvent {
    /// An interrupt signal asked for a graceful shutdown.
    ExitCtrlC,
    /// A finished download should be opened, identified by its path.
    Open(String),
}

} // verus!
