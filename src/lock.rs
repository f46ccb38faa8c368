//! The decisions taken when the exclusive region of a component is acquired
//! and found corrupted by a holder that panicked.

use vstd::prelude::*;

use crate::error::MCManageError;

verus! {

/// How the caller wants the exclusive region.
#[derive(Clone, Copy, Debug, PartialEq, Eq, Structural)]
pub enum LockMode {
    /// Take it if it is sound; otherwise report that no lock was obtained.
    Pure,
    /// Take it if it is sound; otherwise queue a restart in the background and
    /// fail at once with `CriticalError`.
    NonBlocking,
    /// Take it if it is sound; otherwise restart the component and try again
    /// until the region is obtained.
    Blocking,
}

/// What the caller does after one acquisition attempt.
#[derive(Clone, Copy, Debug, PartialEq, Eq, Structural)]
pub enum LockDecision {
    /// The region was sound: go on holding it.
    Proceed,
    /// Report that no lock was obtained.
    NoLock,
    /// Queue a restart of the component in the background and return the
    /// error to the caller.
    RestartInBackground(MCManageError),
    /// Restart the component now, then attempt the acquisition again.
    RestartThenRetry,
}

/// The decision for an acquisition in `mode` that found the region corrupted
/// (`poisoned`) or sound.
pub open spec fn lock_decision(mode: LockMode, poisoned: bool) -> LockDecision {
    if !poisoned {
        LockDecision::Proceed
    } else {
        match mode {
            LockMode::Pure => LockDecision::NoLock,
            LockMode::NonBlocking => LockDecision::RestartInBackground(MCManageError::CriticalError),
            LockMode::Blocking => LockDecision::RestartThenRetry,
        }
    }
}

/// Decide what follows one acquisition attempt of an exclusive region. A
/// corrupted region is never used: it is always resolved by a restart of the
/// component, or by reporting that no lock was obtained.
pub fn decide_lock(mode: LockMode, poisoned: bool) -> (r: LockDecision)
    ensures
        r == lock_decision(mode, poisoned),
{
    if !poisoned {
        LockDecision::Proceed
    } else {
        match mode {
            LockMode::Pure => LockDecision::NoLock,
            LockMode::NonBlocking => LockDecision::RestartInBackground(MCManageError::CriticalError),
            LockMode::Blocking => LockDecision::RestartThenRetry,
        }
    }
}

/// A corrupted region is never handed on: whatever the mode, the caller does
/// not proceed to use it, and only the pure mode goes without a restart.
pub proof fn lemma_poisoned_never_proceeds(mode: LockMode)
    ensures
        lock_decision(mode, true) != LockDecision::Proceed,
        lock_decision(mode, true) == LockDecision::NoLock <==> mode == LockMode::Pure,
{
}

} // verus!
