use mcm_proxy::error::MCManageError;
use mcm_proxy::lock::{decide_lock, LockDecision, LockMode};
use mcm_proxy::restart::{RestartAction, RestartPhase, RestartRun};
use mcm_proxy::status::{
    check_allowed_restart, check_allowed_start, check_allowed_stop, stop_must_wait, Status,
};

const ALL: [Status; 5] = [Status::Stopped, Status::Starting, Status::Started, Status::Stopping, Status::Restarting];

#[test]
fn start_guard_table() {
    let expected = [
        (Status::Stopped, false, Ok(()), Status::Starting),
        (Status::Starting, false, Err(MCManageError::CurrentlyExecuting), Status::Starting),
        (Status::Started, false, Err(MCManageError::AlreadyExecuted), Status::Started),
        (Status::Stopping, false, Err(MCManageError::NotReady), Status::Stopping),
        (Status::Restarting, false, Err(MCManageError::CurrentlyExecuting), Status::Restarting),
        (Status::Restarting, true, Ok(()), Status::Restarting),
        (Status::Stopped, true, Ok(()), Status::Starting),
    ];
    for (before, restart, result, after) in expected {
        let mut s = before;
        assert_eq!(check_allowed_start(&mut s, restart), result, "start from {before:?}");
        assert_eq!(s, after);
    }
}

#[test]
fn stop_guard_table() {
    let expected = [
        (Status::Started, false, Ok(()), Status::Stopping),
        (Status::Starting, false, Err(MCManageError::NotReady), Status::Starting),
        (Status::Stopped, false, Err(MCManageError::AlreadyExecuted), Status::Stopped),
        (Status::Stopping, false, Err(MCManageError::CurrentlyExecuting), Status::Stopping),
        (Status::Restarting, false, Err(MCManageError::NotReady), Status::Restarting),
        (Status::Restarting, true, Ok(()), Status::Restarting),
    ];
    for (before, restart, result, after) in expected {
        let mut s = before;
        assert_eq!(check_allowed_stop(&mut s, restart), result, "stop from {before:?}");
        assert_eq!(s, after);
    }
}

#[test]
fn restart_guard_table() {
    let expected = [
        (Status::Started, Ok(()), Status::Restarting),
        (Status::Starting, Err(MCManageError::NotReady), Status::Starting),
        (Status::Stopped, Err(MCManageError::NotStarted), Status::Stopped),
        (Status::Stopping, Err(MCManageError::NotStarted), Status::Stopping),
        (Status::Restarting, Err(MCManageError::CurrentlyExecuting), Status::Restarting),
    ];
    for (before, result, after) in expected {
        let mut s = before;
        assert_eq!(check_allowed_restart(&mut s), result, "restart from {before:?}");
        assert_eq!(s, after);
    }
}

#[test]
fn forced_stop_waits_for_started() {
    for s in ALL {
        assert_eq!(stop_must_wait(s, false, true), s != Status::Started);
        assert!(!stop_must_wait(s, true, true));
        assert!(!stop_must_wait(s, false, false));
    }
}

#[test]
fn restart_succeeds_after_retries() {
    let mut status = Status::Started;
    let mut run = RestartRun::begin(&mut status, 3).unwrap();
    assert_eq!(status, Status::Restarting);
    assert_eq!(run.phase(), RestartPhase::Stopping);
    assert_eq!(run.on_stop_result(Err(MCManageError::NotReady)), RestartAction::RetryStop);
    assert_eq!(run.on_stop_result(Err(MCManageError::FatalError)), RestartAction::ResetAndStart);
    assert_eq!(run.phase(), RestartPhase::Starting);
    assert_eq!(run.on_start_result(false), RestartAction::RetryStart);
    assert_eq!(run.on_start_result(true), RestartAction::Finish);
    assert_eq!(run.phase(), RestartPhase::Done);
}

#[test]
fn restart_gives_up_after_budget_plus_one_attempts() {
    let mut status = Status::Started;
    let mut run = RestartRun::begin(&mut status, 2).unwrap();
    assert_eq!(run.on_stop_result(Ok(())), RestartAction::ResetAndStart);
    let mut attempts = 0;
    loop {
        attempts += 1;
        match run.on_start_result(false) {
            RestartAction::RetryStart => continue,
            RestartAction::GiveUp => break,
            other => panic!("unexpected {other:?}"),
        }
    }
    assert_eq!(attempts, 3);
    assert_eq!(run.phase(), RestartPhase::Failed);
}

#[test]
fn restart_with_zero_budget_tries_once() {
    let mut status = Status::Started;
    let mut run = RestartRun::begin(&mut status, 0).unwrap();
    run.on_stop_result(Ok(()));
    assert_eq!(run.on_start_result(false), RestartAction::GiveUp);
}

#[test]
fn restart_refused_unless_started() {
    let mut status = Status::Stopped;
    assert_eq!(RestartRun::begin(&mut status, 3).err(), Some(MCManageError::NotStarted));
    assert_eq!(status, Status::Stopped);
    let mut status = Status::Restarting;
    assert_eq!(RestartRun::begin(&mut status, 3).err(), Some(MCManageError::CurrentlyExecuting));
}

#[test]
fn lock_decisions() {
    for mode in [LockMode::Pure, LockMode::NonBlocking, LockMode::Blocking] {
        assert_eq!(decide_lock(mode, false), LockDecision::Proceed);
    }
    assert_eq!(decide_lock(LockMode::Pure, true), LockDecision::NoLock);
    assert_eq!(
        decide_lock(LockMode::NonBlocking, true),
        LockDecision::RestartInBackground(MCManageError::CriticalError)
    );
    assert_eq!(decide_lock(LockMode::Blocking, true), LockDecision::RestartThenRetry);
}

/// A component whose exclusive region was found corrupted is restarted once
/// and ends up `Started`, or `Stopped` when every start attempt fails.
fn recover(start_outcomes: &[bool], max_tries: usize) -> (Status, usize) {
    let mut status = Status::Started;
    let mut restarts = 0;
    match decide_lock(LockMode::NonBlocking, true) {
        LockDecision::RestartInBackground(e) => assert_eq!(e, MCManageError::CriticalError),
        other => panic!("unexpected {other:?}"),
    }
    restarts += 1;
    let mut run = RestartRun::begin(&mut status, max_tries).unwrap();
    assert_eq!(check_allowed_stop(&mut status, true), Ok(()));
    assert_eq!(run.on_stop_result(Ok(())), RestartAction::ResetAndStart);
    status = Status::Stopped;
    status = Status::Restarting;
    let mut outcomes = start_outcomes.iter();
    loop {
        assert_eq!(check_allowed_start(&mut status, true), Ok(()));
        let started = *outcomes.next().unwrap();
        match run.on_start_result(started) {
            RestartAction::Finish => {
                status = Status::Started;
                break;
            }
            RestartAction::RetryStart => status = Status::Restarting,
            RestartAction::GiveUp => {
                status = Status::Stopped;
                break;
            }
            other => panic!("unexpected {other:?}"),
        }
    }
    (status, restarts)
}

#[test]
fn lock_corruption_recovery_restarts_once() {
    assert_eq!(recover(&[false, true], 3), (Status::Started, 1));
    assert_eq!(recover(&[false, false], 1), (Status::Stopped, 1));
}
