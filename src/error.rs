//! Error types shared by the components of the proxy.

use vstd::prelude::*;

verus! {

/// Errors reported by every supervised component.
#[derive(Clone, Copy, Debug, PartialEq, Eq, Structural)]
pub enum MCManageError {
    /// A recoverable error occurred and a restart of the component was queued.
    CriticalError,
    /// A non-recoverable error occurred and the component was reset.
    FatalError,
    /// Called unwrap on a `None` value.
    UnwrapOnNone,
    /// An invalid file was encountered.
    InvalidFile,
    /// The requested item could not be found.
    NotFound,
    /// The operation has already been executed.
    AlreadyExecuted,
    /// The operation is currently being executed by another caller.
    CurrentlyExecuting,
    /// The operation is not ready to be executed; try again later.
    NotReady,
    /// The component has to be started first.
    NotStarted,
}

} // verus!
