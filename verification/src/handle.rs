//! The handle of a listener that runs in the background.
//!
//! Stopping such a listener takes three steps: send the shutdown signal,
//! wait for the task to end, and report. The first and the last are decided
//! here; the wait between them belongs to the caller's runtime. A
//! [`JoinHandler`] is a running listener, a [`Stopping`] is one that has
//! been signalled, and the `Result` of [`Stopping::finish`] is one that has
//! stopped. Each step uses up the value before it, so no step is taken
//! twice.

use crate::error::Error;
use tokio::sync::oneshot::Sender;
use tokio::task::{JoinError, JoinHandle};
use vstd::prelude::*;

verus! {

/// `tokio::task::JoinHandle`, the owner's end of a spawned task. Nothing is
/// known of what it holds: it is only handed on to be awaited.
#[verifier::external_type_specification]
#[verifier::external_body]
#[verifier::reject_recursive_types(T)]
pub struct ExJoinHandle<T>(tokio::task::JoinHandle<T>);

/// What stopping ends in, given what sending the signal was answered with
/// and how the task ended.
///
/// A task that ran to its end speaks for itself: its own outcome is the
/// result, fault or not, whatever became of the signal. A task that did not
/// run to its end left no outcome: then a signal that failed is reported
/// with its own error, and otherwise the task's failure is reported as
/// [`Error::JoinError`].
pub open spec fn stop_outcome(
    signal: Result<(), Error>,
    exit: Result<Result<(), Error>, JoinError>,
) -> Result<(), Error> {
    match exit {
        Ok(outcome) => outcome,
        Err(failure) => match signal {
            Ok(()) => Err(Error::JoinError(failure)),
            Err(fault) => Err(fault),
        },
    }
}

/// A listener that runs as a background task, and the sending half of its
/// shutdown signal.
pub struct JoinHandler {
    inner: JoinHandle<Result<(), Error>>,
    sender: Sender<()>,
}

/// A listener that has been sent its shutdown signal and has yet to end.
pub struct Stopping {
    signal: Result<(), Error>,
}

impl JoinHandler {
    /// The background task.
    pub closed spec fn task(&self) -> JoinHandle<Result<(), Error>> {
        self.inner
    }

    /// The sending half of the shutdown signal.
    pub closed spec fn sender(&self) -> Sender<()> {
        self.sender
    }

    /// The handle of the task `inner`, which stops when `sender` fires.
    pub fn new(inner: JoinHandle<Result<(), Error>>, sender: Sender<()>) -> (handler: Self)
        ensures
            handler.task() == inner,
            handler.sender() == sender,
    {
        Self { inner, sender }
    }

    /// Sends the shutdown signal and hands out the task to wait for. It
    /// never waits itself, also when the task has already ended.
    ///
    /// The signal is sent on this handle's own sending half, and the task
    /// that comes back is the one this handle was made with. Whether the
    /// signal was delivered is up to the channel; the [`Stopping`] keeps
    /// the report of its answer, which is at worst [`Error::Channel`].
    pub fn join(self) -> (stopping: (Stopping, JoinHandle<Result<(), Error>>))
        ensures
            crate::shutdown::signalled(self.sender(), stopping.0.signal()),
            stopping.1 == self.task(),
            stopping.0.signal() is Err ==> stopping.0.signal() == Err::<(), Error>(Error::Channel),
    {
        let told = crate::shutdown::trigger(self.sender);
        (Stopping::new(told), self.inner)
    }
}

impl Stopping {
    /// What sending the shutdown signal was answered with.
    pub closed spec fn signal(&self) -> Result<(), Error> {
        self.signal
    }

    /// The state of a listener whose shutdown signal was answered with
    /// `signal`.
    pub fn new(signal: Result<(), Error>) -> (stopping: Self)
        ensures
            stopping.signal() == signal,
    {
        Stopping { signal }
    }

    /// Ends the stop once the task has ended with `exit`, and reports
    /// [`stop_outcome`].
    pub fn finish(self, exit: Result<Result<(), Error>, JoinError>) -> (outcome: Result<(), Error>)
        ensures
            outcome == stop_outcome(self.signal(), exit),
    {
        match exit {
            Ok(outcome) => outcome,
            Err(failure) => match self.signal {
                Ok(()) => Err(Error::JoinError(failure)),
                Err(fault) => Err(fault),
            },
        }
    }
}

/// Stopping reports success exactly when the task ran to its end without a
/// fault: no fault of the task is lost, and no failure to run it either.
pub proof fn lemma_stop_succeeds_on_clean_exit_only(
    signal: Result<(), Error>,
    exit: Result<Result<(), Error>, JoinError>,
)
    ensures
        stop_outcome(signal, exit) is Ok <==> (exit matches Ok(outcome) && outcome is Ok),
{
}

/// The outcome of a task that ran to its end is reported as it is, whether
/// or not the signal reached it.
pub proof fn lemma_task_outcome_takes_precedence(
    signal: Result<(), Error>,
    outcome: Result<(), Error>,
)
    ensures
        stop_outcome(signal, Ok(outcome)) == outcome,
{
}

} // verus!
