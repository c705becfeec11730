//! Connection registry and command-dispatch layer for a per-container task
//! runtime ("shim"): address discovery and persistence, a registry that keeps
//! at most one live connection per container, routing of lifecycle commands to
//! the matching remote operation, and projection of the remote-reported
//! lifecycle status into a stable, closed set of states.

pub mod json;
pub mod registry;
pub mod render;
pub mod resolver;
pub mod router;
pub mod status;
pub mod task;

use vstd::prelude::*;

verus! {

/// The closed set of failures this layer can report.
#[derive(Debug, PartialEq, Eq, Clone, Copy)]
pub enum CmdError {
    /// A required request field is missing or the request is not valid JSON.
    DecodeError,
    /// The persisted address file is missing or unreadable.
    AddressUnavailable,
    /// The persisted address file does not name a local-socket endpoint.
    InvalidAddress,
    /// The shim child process could not be started.
    SpawnFailed,
    /// The shim child process's output could not be decoded as text.
    EncodingError,
    /// The resolved address could not be dialed.
    ConnectFailed,
    /// No connection is registered for the container.
    NotFound,
    /// The remote operation reported a failure.
    RemoteCallFailed,
}

/// One pending filesystem write: this layer decides path and contents, the
/// write itself happens outside.
#[derive(Debug, PartialEq, Eq)]
pub struct FileWrite {
    pub path: String,
    pub contents: String,
}

} // verus!
