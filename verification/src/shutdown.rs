//! Orderly shutdown of the backend: take the process out of the shared
//! record, ask it to terminate, wait until it has exited. A process that is
//! already gone when asked is a success, since a request to terminate may
//! always race with a natural exit.

use crate::supervisor::{StateView, SupervisorState};
use vstd::prelude::*;
use vstd::string::*;

verus! {

/// What the operating system answered to a request on the process, be it to
/// terminate it or to wait for its exit.
#[derive(Debug, PartialEq, Eq)]
pub enum ExitReport {
    /// The request went through.
    Done,
    /// The process had exited before the request arrived.
    AlreadyExited,
    /// The request failed for another reason, described by the text.
    Failed(String),
}

/// A shutdown that did not go through. It is a warning for the host, which
/// closes all the same.
#[derive(Debug, PartialEq, Eq)]
pub enum ShutdownError {
    /// The request to terminate failed; the text says why.
    Terminate(String),
    /// The wait for the exit failed; the text says why.
    Wait(String),
}

/// What a shutdown trigger has to do.
#[derive(Debug, PartialEq, Eq)]
pub enum ShutdownPlan<P> {
    /// No process is held: it was never started, or another trigger took it.
    NothingToDo,
    /// This trigger owns the process and must terminate and reap it.
    Terminate(P),
}

/// What a trigger has to do on a record with this content.
pub open spec fn plan_for<P>(state: StateView<P>) -> ShutdownPlan<P> {
    match state.process {
        Some(process) => ShutdownPlan::Terminate(process),
        None => ShutdownPlan::NothingToDo,
    }
}

/// The verdict after the request to terminate: `Ok` means go on and wait.
pub open spec fn terminate_verdict(report: ExitReport) -> Result<(), ShutdownError> {
    match report {
        ExitReport::Failed(why) => Err(ShutdownError::Terminate(why)),
        _ => Ok(()),
    }
}

/// The verdict after the wait for the exit.
pub open spec fn wait_verdict(report: ExitReport) -> Result<(), ShutdownError> {
    match report {
        ExitReport::Failed(why) => Err(ShutdownError::Wait(why)),
        _ => Ok(()),
    }
}

/// The text of the warning that a failed shutdown leaves.
pub open spec fn warning_text(error: ShutdownError) -> Seq<char> {
    match error {
        ShutdownError::Terminate(why) => "Failed to kill API server: "@ + why@,
        ShutdownError::Wait(why) => "Failed to wait for API server to exit: "@ + why@,
    }
}

/// Takes the process out of the shared record for this trigger. At most one
/// trigger is ever told to terminate a given process, and from here on the
/// record reports "not ready".
pub fn begin_shutdown<P>(state: &mut SupervisorState<P>) -> (plan: ShutdownPlan<P>)
    ensures
        final(state)@ == StateView::<P>::empty(),
        final(state).wf(),
        !final(state)@.is_ready(),
        plan == plan_for(old(state)@),
{
    match state.take_for_shutdown() {
        Some(process) => ShutdownPlan::Terminate(process),
        None => ShutdownPlan::NothingToDo,
    }
}

/// Judges the answer to the request to terminate. On `Ok` the caller goes on
/// to wait for the exit; on `Err` the shutdown ends with that warning.
pub fn after_terminate(report: ExitReport) -> (verdict: Result<(), ShutdownError>)
    ensures
        verdict == terminate_verdict(report),
{
    match report {
        ExitReport::Failed(why) => Err(ShutdownError::Terminate(why)),
        ExitReport::Done => Ok(()),
        ExitReport::AlreadyExited => Ok(()),
    }
}

/// Judges the answer to the wait for the exit, which ends the shutdown.
pub fn after_wait(report: ExitReport) -> (verdict: Result<(), ShutdownError>)
    ensures
        verdict == wait_verdict(report),
{
    match report {
        ExitReport::Failed(why) => Err(ShutdownError::Wait(why)),
        ExitReport::Done => Ok(()),
        ExitReport::AlreadyExited => Ok(()),
    }
}

/// Whether `verdict` is what a stop of `process` comes to, for some answers
/// that the two requests can give: the request to terminate is made on the
/// process, and the wait on what that request hands back, unless the request
/// failed, in which case its failure is the verdict and no wait is made.
pub open spec fn stop_comes_to<P, K, W>(
    process: P,
    terminate: K,
    wait: W,
    verdict: Result<(), ShutdownError>,
) -> bool where K: FnOnce(P) -> (P, ExitReport), W: FnOnce(P) -> ExitReport {
    exists|held: P, asked: ExitReport| #[trigger]
        terminate.ensures((process,), (held, asked)) && if asked is Failed {
            verdict == terminate_verdict(asked)
        } else {
            exists|waited: ExitReport| #[trigger]
                wait.ensures((held,), waited) && verdict == wait_verdict(waited)
        }
}

/// Stops a process: asks it to terminate through `terminate` and, unless
/// that failed, waits for its exit through `wait`.
pub fn stop_process<P, K, W>(process: P, terminate: K, wait: W) -> (verdict: Result<
    (),
    ShutdownError,
>) where K: FnOnce(P) -> (P, ExitReport), W: FnOnce(P) -> ExitReport
    requires
        forall|p: P| terminate.requires((p,)),
        forall|p: P| wait.requires((p,)),
    ensures
        stop_comes_to(process, terminate, wait, verdict),
{
    let (held, asked) = terminate(process);
    match after_terminate(asked) {
        Err(error) => Err(error),
        Ok(_) => {
            let waited = wait(held);
            after_wait(waited)
        },
    }
}

/// Carries out a plan: with nothing to do the shutdown has succeeded at
/// once, and neither request is made; a process handed over is stopped.
pub fn run_shutdown<P, K, W>(plan: ShutdownPlan<P>, terminate: K, wait: W) -> (verdict: Result<
    (),
    ShutdownError,
>) where K: FnOnce(P) -> (P, ExitReport), W: FnOnce(P) -> ExitReport
    requires
        forall|p: P| terminate.requires((p,)),
        forall|p: P| wait.requires((p,)),
    ensures
        match plan {
            ShutdownPlan::NothingToDo => verdict == Ok::<(), ShutdownError>(()),
            ShutdownPlan::Terminate(process) => stop_comes_to(process, terminate, wait, verdict),
        },
{
    match plan {
        ShutdownPlan::NothingToDo => Ok(()),
        ShutdownPlan::Terminate(process) => stop_process(process, terminate, wait),
    }
}

impl ShutdownError {
    /// The warning as text for the host's log.
    pub fn message(&self) -> (text: String)
        ensures
            text@ == warning_text(*self),
    {
        match self {
            ShutdownError::Terminate(why) => {
                let mut text = String::from_str("Failed to kill API server: ");
                text.append(why.as_str());
                text
            },
            ShutdownError::Wait(why) => {
                let mut text = String::from_str("Failed to wait for API server to exit: ");
                text.append(why.as_str());
                text
            },
        }
    }
}

/// Either request succeeds exactly when its answer is no failure; that the
/// process had already exited is never one.
pub proof fn lemma_already_exited_is_success(report: ExitReport)
    ensures
        terminate_verdict(report) is Ok <==> !(report is Failed),
        wait_verdict(report) is Ok <==> !(report is Failed),
        report is AlreadyExited ==> terminate_verdict(report) is Ok && wait_verdict(report)
            is Ok,
{
}

/// A second trigger finds nothing to do: once one shutdown has begun, the
/// plan on what it left behind is `NothingToDo`, whatever the record held.
pub proof fn lemma_second_trigger_idle<P>(state: StateView<P>)
    ensures
        plan_for(state.after_take()) == ShutdownPlan::<P>::NothingToDo,
        state.wf() && state.is_ready() ==> plan_for(state) is Terminate,
{
}

} // verus!
