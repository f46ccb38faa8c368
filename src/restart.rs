//! The restart engine: stop, reset, then start again with a bounded number of
//! attempts. The engine decides; its owner performs each action (stopping,
//! resetting, sleeping one refresh interval, starting) and reports back.

use vstd::prelude::*;

use crate::error::MCManageError;
use crate::status::{check_allowed_restart, restart_guard, guard_applied, Status};

verus! {

/// The stage a restart is in.
#[derive(Clone, Copy, Debug, PartialEq, Eq, Structural)]
pub enum RestartPhase {
    /// Waiting for the component to stop.
    Stopping,
    /// Waiting for the component to start.
    Starting,
    /// The component started again.
    Done,
    /// Every start attempt failed; the component stays stopped.
    Failed,
}

/// What the owner of a restart has to do next.
#[derive(Clone, Copy, Debug, PartialEq, Eq, Structural)]
pub enum RestartAction {
    /// Wait one refresh interval, then stop the component again.
    RetryStop,
    /// Reset the component, set its status to `Restarting` and start it.
    ResetAndStart,
    /// Set the status to `Restarting`, wait one refresh interval, then start
    /// the component again.
    RetryStart,
    /// Set the status to `Started`: the restart is complete.
    Finish,
    /// Reset the component and report a `FatalError`: no further attempt is
    /// made.
    GiveUp,
}

/// One restart in progress.
pub struct RestartRun {
    phase: RestartPhase,
    failcounter: usize,
    max_tries: usize,
}

impl RestartRun {
    /// The stage of this restart.
    pub closed spec fn stage(&self) -> RestartPhase {
        self.phase
    }

    /// The number of failed start attempts so far.
    pub closed spec fn failures(&self) -> nat {
        self.failcounter as nat
    }

    /// The number of failed start attempts after which the restart gives up
    /// is one more than this budget.
    pub closed spec fn budget(&self) -> nat {
        self.max_tries as nat
    }

    /// The failures never exceed the budget, and a failed restart has used it
    /// up: at most `budget() + 1` start attempts are made.
    pub open spec fn wf(&self) -> bool {
        &&& self.failures() <= self.budget()
        &&& self.stage() == RestartPhase::Failed ==> self.failures() == self.budget()
    }

    /// Begin a restart of a component with status `status`. It is allowed only
    /// from `Started`, and moves the status to `Restarting`; the owner then
    /// stops the component as part of a restart, forcing the stop.
    pub fn begin(status: &mut Status, max_tries: usize) -> (r: Result<RestartRun, MCManageError>)
        ensures
            guard_applied(
                restart_guard(*old(status)),
                *old(status),
                *final(status),
                match r {
                    Ok(_) => Ok(()),
                    Err(e) => Err(e),
                },
            ),
            r matches Ok(run) ==> run.wf() && run.stage() == RestartPhase::Stopping
                && run.failures() == 0 && run.budget() == max_tries,
    {
        match check_allowed_restart(status) {
            Ok(()) => Ok(RestartRun { phase: RestartPhase::Stopping, failcounter: 0, max_tries }),
            Err(e) => Err(e),
        }
    }

    /// The stage of this restart.
    pub fn phase(&self) -> (r: RestartPhase)
        ensures
            r == self.stage(),
    {
        self.phase
    }

    /// The stop attempt returned `result`. A success, or a fatal error after
    /// which stopping cannot be retried, moves on to resetting and starting;
    /// any other error is retried after one refresh interval.
    pub fn on_stop_result(&mut self, result: Result<(), MCManageError>) -> (r: RestartAction)
        requires
            old(self).wf(),
            old(self).stage() == RestartPhase::Stopping,
        ensures
            final(self).wf(),
            final(self).budget() == old(self).budget(),
            final(self).failures() == old(self).failures(),
            (result is Ok || result == Err::<(), MCManageError>(MCManageError::FatalError)) ==> (r
                == RestartAction::ResetAndStart && final(self).stage() == RestartPhase::Starting),
            !(result is Ok || result == Err::<(), MCManageError>(MCManageError::FatalError)) ==> (r
                == RestartAction::RetryStop && final(self).stage() == RestartPhase::Stopping),
    {
        let proceed = match result {
            Ok(()) => true,
            Err(MCManageError::FatalError) => true,
            Err(_) => false,
        };
        if proceed {
            self.phase = RestartPhase::Starting;
            RestartAction::ResetAndStart
        } else {
            RestartAction::RetryStop
        }
    }

    /// The start attempt succeeded (`started`) or failed. A success completes
    /// the restart. A failure gives up once `budget()` failures had already
    /// been counted, and otherwise is counted and retried after one refresh
    /// interval.
    pub fn on_start_result(&mut self, started: bool) -> (r: RestartAction)
        requires
            old(self).wf(),
            old(self).stage() == RestartPhase::Starting,
        ensures
            final(self).wf(),
            final(self).budget() == old(self).budget(),
            started ==> r == RestartAction::Finish && final(self).stage() == RestartPhase::Done
                && final(self).failures() == old(self).failures(),
            !started && old(self).failures() == old(self).budget() ==> r == RestartAction::GiveUp
                && final(self).stage() == RestartPhase::Failed && final(self).failures()
                == old(self).failures(),
            !started && old(self).failures() < old(self).budget() ==> r == RestartAction::RetryStart
                && final(self).stage() == RestartPhase::Starting && final(self).failures()
                == old(self).failures() + 1,
    {
        if started {
            self.phase = RestartPhase::Done;
            RestartAction::Finish
        } else if self.failcounter == self.max_tries {
            self.phase = RestartPhase::Failed;
            RestartAction::GiveUp
        } else {
            self.failcounter = self.failcounter + 1;
            RestartAction::RetryStart
        }
    }
}

} // verus!
