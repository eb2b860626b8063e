//! The one-shot signal that asks a running listener to stop.
//!
//! The signal is a `tokio` one-shot channel of `()`. Whoever started the
//! listener keeps the sending half and may use it once; the listener keeps
//! the receiving half, which resolves once. This module holds the two
//! decisions that are made on the channel's answers: what the owner is told
//! after sending, and whether the listener stops when its half resolves.

use crate::error::Error;
use tokio::sync::oneshot::error::RecvError;
use tokio::sync::oneshot::Sender;
use vstd::prelude::*;

verus! {

/// `tokio::sync::oneshot::Sender`, the sending half of a one-shot channel.
/// Nothing is known of what it holds.
#[verifier::external_type_specification]
#[verifier::external_body]
#[verifier::reject_recursive_types(T)]
pub struct ExSender<T>(tokio::sync::oneshot::Sender<T>);

/// `tokio::sync::oneshot::error::RecvError`, with which the receiving half
/// resolves when the sending half was dropped unused.
#[verifier::external_type_specification]
#[verifier::external_body]
pub struct ExRecvError(tokio::sync::oneshot::error::RecvError);

/// `Sender::send` of `tokio::sync::oneshot` uses up the sending half and
/// returns at once. Whether the value is taken depends on the other half:
/// all that is claimed is that a value that was not taken comes back
/// unchanged in `Err`.
pub assume_specification<T>[ tokio::sync::oneshot::Sender::<T>::send ](
    sender: tokio::sync::oneshot::Sender<T>,
    t: T,
) -> (sent: Result<(), T>)
    ensures
        sent matches Err(back) ==> back == t,
;

/// What the owner is told once the channel has answered `sent` to the
/// signal: nothing when it was taken, [`Error::Channel`] when the
/// receiving half was already gone.
pub open spec fn report_of(sent: Result<(), ()>) -> Result<(), Error> {
    match sent {
        Ok(()) => Ok(()),
        Err(()) => Err(Error::Channel),
    }
}

/// Turns the channel's answer to the signal into what the owner is told.
pub fn report(sent: Result<(), ()>) -> (told: Result<(), Error>)
    ensures
        told == report_of(sent),
{
    match sent {
        Ok(()) => Ok(()),
        Err(()) => Err(Error::Channel),
    }
}

/// Whether `told` is what the owner is told after `()` was sent on
/// `sender`: the channel gave some answer to that very send, and `told` is
/// [`report_of`] that answer.
pub open spec fn signalled(sender: Sender<()>, told: Result<(), Error>) -> bool {
    exists|sent: Result<(), ()>|
        call_ensures(tokio::sync::oneshot::Sender::<()>::send, (sender, ()), sent) && told
            == report_of(sent)
}

/// Sends the signal. This uses up the sending half, so a signal is sent at
/// most once, and it never waits. What comes back is the report of the
/// channel's answer to the send on `sender`: a listener that is already
/// gone is reported as [`Error::Channel`], and no other error comes out.
pub fn trigger(sender: Sender<()>) -> (told: Result<(), Error>)
    ensures
        signalled(sender, told),
        told is Err ==> told == Err::<(), Error>(Error::Channel),
{
    report(sender.send(()))
}

/// Whether a listener stops when the receiving half has resolved with
/// `received`: it stops on the signal itself and on nothing else. A sending
/// half that was dropped unused counts as a signal that never came.
pub fn shutdown_requested(received: Result<(), RecvError>) -> (stop: bool)
    ensures
        stop == (received is Ok),
{
    received.is_ok()
}

} // verus!
