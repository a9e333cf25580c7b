//! The queues of `std::sync::mpsc` that carry key codes in and screen changes
//! out. What travels through them is decided by other threads, so nothing here
//! says what a receive returns.

use std::sync::mpsc::{Receiver, Sender, TryRecvError};
use vstd::prelude::*;

verus! {

/// The sending half of a queue, opaque to the verifier.
#[verifier::external_type_specification]
#[verifier::external_body]
#[verifier::reject_recursive_types(T)]
pub struct ExSender<T>(Sender<T>);

/// The receiving half of a queue, opaque to the verifier.
#[verifier::external_type_specification]
#[verifier::external_body]
#[verifier::reject_recursive_types(T)]
pub struct ExReceiver<T>(Receiver<T>);

/// `std::sync::mpsc::channel`: a new queue, as its two halves. Nothing is
/// claimed of them.
pub assume_specification<T>[ std::sync::mpsc::channel::<T> ]() -> (ends: (Sender<T>, Receiver<T>));

/// `Receiver::try_recv`: takes the oldest waiting item without blocking.
/// `Ok(None)` stands for an empty queue, `Err` for one whose senders are all
/// gone. Which of the three comes back is not claimed.
#[verifier::external_body]
pub(crate) fn try_receive<T>(rx: &Receiver<T>) -> (got: Result<Option<T>, ()>) {
    match rx.try_recv() {
        Ok(item) => Ok(Some(item)),
        Err(TryRecvError::Empty) => Ok(None),
        Err(TryRecvError::Disconnected) => Err(()),
    }
}

/// `Receiver::recv`: blocks until an item arrives and returns it, or returns
/// `Err` once every sender is gone. Nothing is claimed of the item, nor that
/// the call returns while a sender lives and sends nothing.
#[verifier::external_body]
pub(crate) fn receive<T>(rx: &Receiver<T>) -> (got: Result<T, ()>) {
    match rx.recv() {
        Ok(item) => Ok(item),
        Err(_) => Err(()),
    }
}

/// `Sender::send`: hands an item to the queue; `false` when the receiver is
/// gone. Which of the two comes back is not claimed.
#[verifier::external_body]
pub(crate) fn send<T>(tx: &Sender<T>, item: T) -> (sent: bool) {
    tx.send(item).is_ok()
}

/// `Sender::clone`: one more sending half of the same queue. To the verifier
/// a sending half stands for the queue that it feeds and for nothing else, so
/// the clone equals the half that it was made from.
#[verifier::external_body]
pub(crate) fn clone_sender<T>(tx: &Sender<T>) -> (twin: Sender<T>)
    ensures
        twin == *tx,
{
    tx.clone()
}

} // verus!
