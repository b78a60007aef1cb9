//! The guarded entry of the application.
//!
//! A host runtime enters the application through [`_start_app`], one event
//! at a time, and no failure of the run may travel back into the host: a
//! webview that cannot be built ends the run with an order to abort, and a
//! run that was unwinding is stopped at the boundary by [`stop_unwind`].

use crate::lifecycle::AppLifecycle;
use crate::lifecycle::ConstructionError;
use crate::lifecycle::LoopControl;
use crate::lifecycle::PlatformEvent;
use vstd::prelude::*;
use vstd::string::StringExecFns;

verus! {

/// What one guarded step of the run comes to.
#[derive(Debug, PartialEq, Eq)]
pub enum GuardedStep<E> {
    /// The run goes on; the loop is told what to do next.
    Continue(LoopControl),
    /// The webview could not be built. The run is over and the process is
    /// to be ended.
    Abort(ConstructionError<E>),
}

/// How the run of the application ended, as seen at the entry boundary.
#[derive(Clone, Debug, PartialEq, Eq)]
pub enum RunOutcome {
    /// The run came back in the ordinary way.
    Completed,
    /// The run was unwinding; the text describes what it carried.
    Unwound(String),
}

/// What the boundary does once the run has ended.
#[derive(Clone, Debug, PartialEq, Eq)]
pub enum EntryAction {
    /// Hand control back to the host.
    Return,
    /// Report the message and end the process.
    Abort(String),
}

/// What precedes the description of the failure in the report.
pub open spec fn abort_prefix() -> Seq<char> {
    "attempt to unwind out of `rust` with err: "@
}

/// The report made of a run that was unwinding with `payload`.
pub open spec fn abort_message(payload: Seq<char>) -> Seq<char> {
    abort_prefix() + payload
}

/// Takes the run one event further, under the guard of the entry.
///
/// The first notification that the loop has started builds the webview by
/// calling `factory`, and the run is running with it; no other event calls
/// the factory, so a webview that is alive is never replaced and a run that
/// is over never starts again. Where the factory fails, the run is over and
/// the step orders the process to be ended. A request to close releases the
/// webview of a running lifecycle before the loop is told to stop. Every
/// other event leaves the run as it is, and the loop is told to wait until
/// the run is over and to stop from then on.
pub fn _start_app<W, E, F>(lifecycle: &mut AppLifecycle<W>, event: PlatformEvent, factory: F) -> (step:
    GuardedStep<E>)
    where F: FnOnce() -> Result<W, E>
    requires
        old(lifecycle).phase().constructs(event) ==> factory.requires(()),
    ensures
        old(lifecycle).phase().constructs(event) ==> exists|built: Result<W, E>|
            factory.ensures((), built) && match built {
                Ok(webview) => final(lifecycle).phase() == old(lifecycle).phase().after(
                    event,
                    Some(webview),
                ) && step == GuardedStep::<E>::Continue(LoopControl::Wait),
                Err(cause) => final(lifecycle).phase() is Terminated && step == GuardedStep::<
                    E,
                >::Abort(ConstructionError { cause }),
            },
        !old(lifecycle).phase().constructs(event) ==> final(lifecycle).phase() == old(
            lifecycle,
        ).phase().after(event, None) && step == GuardedStep::<E>::Continue(
            final(lifecycle).phase().control(),
        ),
{
    match lifecycle.dispatch(event, factory) {
        Ok(control) => GuardedStep::Continue(control),
        Err(failure) => GuardedStep::Abort(failure),
    }
}

/// Decides what happens at the entry boundary once the run has ended: a run
/// that came back hands control to the host, and a run that was unwinding
/// ends the process with a report of what it carried. The failure never
/// crosses the boundary.
pub fn stop_unwind(outcome: RunOutcome) -> (action: EntryAction)
    ensures
        match outcome {
            RunOutcome::Completed => action is Return,
            RunOutcome::Unwound(payload) => action matches EntryAction::Abort(message)
                && message@ == abort_message(payload@),
        },
{
    match outcome {
        RunOutcome::Completed => EntryAction::Return,
        RunOutcome::Unwound(payload) => {
            let mut message: String = String::from_str(
                "attempt to unwind out of `rust` with err: ",
            );
            message.append(payload.as_str());
            EntryAction::Abort(message)
        },
    }
}

} // verus!
