//! Supervisor for a single long-lived external worker process.
//!
//! The library owns the logic of the worker lifecycle: resolving a Python
//! environment to a concrete interpreter command, interpreting the
//! line-delimited JSON handshake and request/response protocol, the
//! ping-based readiness probe, and the state machine that guarantees at
//! most one live worker and idempotent teardown.  All process and pipe
//! I/O is performed by the embedding application, which drives the state
//! machine and hands every observed outcome back to the verified logic.

pub mod envres;
pub mod errors;
pub mod jsonio;
pub mod lifecycle;
pub mod protocol;
pub mod settings;
pub mod strutil;
pub mod types;
