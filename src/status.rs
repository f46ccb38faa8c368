//! The five-state lifecycle of a supervised component and the guards that
//! decide whether a start, stop or restart may proceed.

use vstd::prelude::*;

use crate::error::MCManageError;

verus! {

/// The lifecycle status of a supervised component.
#[derive(Clone, Copy, Debug, PartialEq, Eq, Structural)]
pub enum Status {
    Stopped,
    Starting,
    Started,
    Stopping,
    Restarting,
}

/// The outcome of the start guard: the status to move to, or the refusal.
pub open spec fn start_guard(s: Status, restart: bool) -> Result<Status, MCManageError> {
    match s {
        Status::Stopped => Ok(Status::Starting),
        Status::Starting => Err(MCManageError::CurrentlyExecuting),
        Status::Started => Err(MCManageError::AlreadyExecuted),
        Status::Stopping => Err(MCManageError::NotReady),
        Status::Restarting => if restart {
            Ok(Status::Restarting)
        } else {
            Err(MCManageError::CurrentlyExecuting)
        },
    }
}

/// The outcome of the stop guard: the status to move to, or the refusal.
pub open spec fn stop_guard(s: Status, restart: bool) -> Result<Status, MCManageError> {
    match s {
        Status::Started => Ok(Status::Stopping),
        Status::Starting => Err(MCManageError::NotReady),
        Status::Stopped => Err(MCManageError::AlreadyExecuted),
        Status::Stopping => Err(MCManageError::CurrentlyExecuting),
        Status::Restarting => if restart {
            Ok(Status::Restarting)
        } else {
            Err(MCManageError::NotReady)
        },
    }
}

/// The outcome of the restart guard: the status to move to, or the refusal.
pub open spec fn restart_guard(s: Status) -> Result<Status, MCManageError> {
    match s {
        Status::Started => Ok(Status::Restarting),
        Status::Starting => Err(MCManageError::NotReady),
        Status::Stopped => Err(MCManageError::NotStarted),
        Status::Stopping => Err(MCManageError::NotStarted),
        Status::Restarting => Err(MCManageError::CurrentlyExecuting),
    }
}

/// A guard was applied: on success the status moved to the guard's target, on
/// refusal the status is unchanged and the refusal is returned.
pub open spec fn guard_applied(
    guard: Result<Status, MCManageError>,
    before: Status,
    after: Status,
    r: Result<(), MCManageError>,
) -> bool {
    match guard {
        Ok(next) => r is Ok && after == next,
        Err(e) => r == Err::<(), MCManageError>(e) && after == before,
    }
}

/// Check whether a start may proceed and, if so, move the status on.
///
/// A start is allowed from `Stopped` (moving to `Starting`) and, when it is
/// issued by the restart engine, from `Restarting`.
pub fn check_allowed_start(status: &mut Status, restart: bool) -> (r: Result<(), MCManageError>)
    ensures
        guard_applied(start_guard(*old(status), restart), *old(status), *final(status), r),
{
    match *status {
        Status::Stopped => {
            *status = Status::Starting;
            Ok(())
        },
        Status::Starting => Err(MCManageError::CurrentlyExecuting),
        Status::Started => Err(MCManageError::AlreadyExecuted),
        Status::Stopping => Err(MCManageError::NotReady),
        Status::Restarting => if restart {
            Ok(())
        } else {
            Err(MCManageError::CurrentlyExecuting)
        },
    }
}

/// Check whether a stop may proceed and, if so, move the status on.
///
/// A stop is allowed from `Started` (moving to `Stopping`) and, when it is
/// issued by the restart engine, from `Restarting`.
pub fn check_allowed_stop(status: &mut Status, restart: bool) -> (r: Result<(), MCManageError>)
    ensures
        guard_applied(stop_guard(*old(status), restart), *old(status), *final(status), r),
{
    match *status {
        Status::Started => {
            *status = Status::Stopping;
            Ok(())
        },
        Status::Starting => Err(MCManageError::NotReady),
        Status::Stopped => Err(MCManageError::AlreadyExecuted),
        Status::Stopping => Err(MCManageError::CurrentlyExecuting),
        Status::Restarting => if restart {
            Ok(())
        } else {
            Err(MCManageError::NotReady)
        },
    }
}

/// Whether a forced stop has to keep waiting before it applies the stop guard.
///
/// A forced stop that is not part of a restart waits until the component has
/// reached `Started`.
pub fn stop_must_wait(status: Status, restart: bool, forced: bool) -> (r: bool)
    ensures
        r == (forced && !restart && status != Status::Started),
{
    forced && !restart && status != Status::Started
}

/// Check whether a restart may proceed and, if so, move the status to
/// `Restarting`.
pub fn check_allowed_restart(status: &mut Status) -> (r: Result<(), MCManageError>)
    ensures
        guard_applied(restart_guard(*old(status)), *old(status), *final(status), r),
{
    match *status {
        Status::Started => {
            *status = Status::Restarting;
            Ok(())
        },
        Status::Starting => Err(MCManageError::NotReady),
        Status::Stopped => Err(MCManageError::NotStarted),
        Status::Stopping => Err(MCManageError::NotStarted),
        Status::Restarting => Err(MCManageError::CurrentlyExecuting),
    }
}

} // verus!
