//! Error taxonomy of the supervisor.
//!
//! Infrastructure failures are always surfaced to the caller of the
//! operation that hit them; they are never retried by this library.  A
//! worker-reported application-level error is *not* represented here: it
//! travels back to the caller as an ordinary response value collapsed to
//! a single `{"error": ...}` object.

use vstd::prelude::*;

verus! {

/// Which phase of the supervisor an infrastructure failure belongs to.
#[derive(Clone, Copy, Debug, PartialEq, Eq, Structural)]
pub enum ErrorKind {
    /// The load attempt failed before or at process creation: missing
    /// handler script, unusable environment descriptor, spawn failure.
    Launch,
    /// The worker's first line was missing, malformed, or reported a
    /// non-ready status; also a failed readiness probe during a load.
    Handshake,
    /// The worker's exit was detected before or during an exchange.
    ProcessDead,
    /// A protocol-level inconsistency: the output stream closed while the
    /// process was still alive, or a response line that is not JSON.
    Protocol,
    /// An exchange was requested while no worker has ever been loaded.
    NotStarted,
}

/// A single infrastructure failure: the phase it belongs to and one
/// human-readable message.
#[derive(Clone, Debug)]
pub struct SupervisorError {
    pub kind: ErrorKind,
    pub message: String,
}

impl SupervisorError {
    pub fn new(kind: ErrorKind, message: String) -> (r: SupervisorError)
        ensures
            r.kind == kind,
            r.message@ == message@,
    {
        SupervisorError { kind, message }
    }

    /// The phase of this failure.
    pub fn kind(&self) -> (k: ErrorKind)
        ensures
            k == self.kind,
    {
        self.kind
    }

    /// The human-readable message of this failure.
    pub fn message(&self) -> (m: &String)
        ensures
            m@ == self.message@,
    {
        &self.message
    }
}

} // verus!
