//! The ways in which a module of the agent can fail. None of them ends the
//! agent: a module that cannot start is left out, an unreadable file is
//! skipped, a report that cannot be delivered is dropped.

use vstd::prelude::*;

verus! {

/// A module could not start on this host; the agent runs on without it.
#[derive(Debug, Clone, Copy, PartialEq, Eq, Structural)]
pub enum InitializationError {
    /// What the module depends on is not present on this host.
    Unavailable,
}

/// A file could not be opened, or its metadata could not be read.
#[derive(Debug, Clone, Copy, PartialEq, Eq, Structural)]
pub enum IOError {
    /// The file was listed but could not be read.
    Unreadable,
}

/// A report did not reach the backend, or the backend refused it.
#[derive(Debug, Clone, Copy, PartialEq, Eq, Structural)]
pub enum ReportError {
    /// No response arrived: the connection failed or the request timed out.
    Transport,
    /// The backend answered with this status, which is outside 200..=299.
    Rejected(u16),
}

} // verus!
