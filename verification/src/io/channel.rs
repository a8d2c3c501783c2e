//! The queues between the execution contexts: unbounded first-in-first-out
//! channels of the standard library.
//!
//! Nothing in this file is proved. Each item states what the standard
//! library documents of the function it calls.

use std::sync::mpsc::{Receiver, RecvError, Sender};
use vstd::prelude::*;

verus! {

/// The sending half of a channel, `std::sync::mpsc::Sender`. Opaque to proofs.
#[verifier::external_type_specification]
#[verifier::external_body]
#[verifier::reject_recursive_types(T)]
pub struct ExSender<T>(Sender<T>);

/// The receiving half of a channel, `std::sync::mpsc::Receiver`. Opaque to
/// proofs.
#[verifier::external_type_specification]
#[verifier::external_body]
#[verifier::reject_recursive_types(T)]
pub struct ExReceiver<T>(Receiver<T>);

/// The error of a receive on a channel whose senders are all gone,
/// `std::sync::mpsc::RecvError`.
#[verifier::external_type_specification]
#[verifier::external_body]
pub struct ExRecvError(RecvError);

/// Calls `Sender::send`, which never blocks. Whether the value is accepted
/// depends on whether the receiving half still exists, so nothing is claimed
/// of that; a value that is not accepted comes back unchanged.
#[verifier::external_body]
pub(crate) fn send<T>(tx: &Sender<T>, value: T) -> (outcome: Result<(), T>)
    ensures
        outcome matches Err(returned) ==> returned == value,
{
    match tx.send(value) {
        Ok(()) => Ok(()),
        Err(refused) => Err(refused.0),
    }
}

/// Calls `Receiver::recv`, which waits for the next value of the channel and
/// does not come back while the channel is empty and a sender still exists.
/// What arrives depends on the senders, so nothing is claimed of the result.
#[verifier::external_body]
pub(crate) fn recv<T>(rx: &Receiver<T>) -> (outcome: Result<T, RecvError>) {
    rx.recv()
}

} // verus!
