//! The unbounded multi-producer, single-consumer queues that carry events to
//! actors and replies back to callers.
use vstd::prelude::*;
use tokio::sync::mpsc::error::TryRecvError;
use tokio::sync::mpsc::{UnboundedReceiver, UnboundedSender};

verus! {

#[verifier::external_type_specification]
#[verifier::external_body]
#[verifier::reject_recursive_types(T)]
pub struct ExUnboundedSender<T>(UnboundedSender<T>);

#[verifier::external_type_specification]
#[verifier::external_body]
#[verifier::reject_recursive_types(T)]
pub struct ExUnboundedReceiver<T>(UnboundedReceiver<T>);

/// Relies on tokio's `unbounded_channel`: it makes a fresh queue and returns
/// its sending and receiving halves. Nothing about the halves is stated.
pub assume_specification<T>[ tokio::sync::mpsc::unbounded_channel::<T> ]() -> (UnboundedSender<T>, UnboundedReceiver<T>);

/// What a non-blocking look at a receiver found.
pub enum Polled<T> {
    /// The oldest queued value, now removed from the queue.
    Item(T),
    /// Nothing is queued, but a sender is still alive.
    Empty,
    /// Nothing is queued and every sender is gone.
    Closed,
}

/// Relies on tokio's `UnboundedSender::send`: it queues the value and returns
/// `Ok` unless the receiving half is closed or dropped. Whether that has
/// happened depends on other tasks, so nothing is stated of the outcome.
#[verifier::external_body]
pub(crate) fn enqueue<T>(tx: &UnboundedSender<T>, value: T) -> (r: bool) {
    tx.send(value).is_ok()
}

/// Relies on tokio's `UnboundedReceiver::try_recv`: it takes the oldest
/// queued value without waiting, or reports an empty or disconnected queue.
/// What is queued depends on other tasks, so nothing is stated of the outcome.
#[verifier::external_body]
pub(crate) fn poll_receiver<T>(rx: &mut UnboundedReceiver<T>) -> (r: Polled<T>) {
    match rx.try_recv() {
        Ok(v) => Polled::Item(v),
        Err(TryRecvError::Empty) => Polled::Empty,
        Err(TryRecvError::Disconnected) => Polled::Closed,
    }
}

} // verus!
