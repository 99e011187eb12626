//! Routing a request to an actor's inbox and collecting its single reply.
use vstd::prelude::*;
use tokio::sync::mpsc::{unbounded_channel, UnboundedReceiver};
use crate::channel::{enqueue, poll_receiver, Polled};
use crate::error::DispatchError;
use crate::event::Event;
use crate::identity::Actor;
use crate::registry::Registry;

verus! {

/// The state of a reply path as seen by the call waiting on it.
#[derive(Debug, PartialEq, Eq)]
pub enum ReplyPoll {
    /// The path is settled: `Some` with the reply, or `None` when the
    /// replying side went away without sending one.
    Ready(Option<String>),
    /// No reply yet, and the replying side still holds the path.
    Pending,
}

/// How a look at a reply path settles the call waiting on it.
pub open spec fn settle_spec(p: Polled<String>) -> Option<Option<String>> {
    match p {
        Polled::Item(s) => Some(Some(s)),
        Polled::Closed => Some(None),
        Polled::Empty => None,
    }
}

/// Turns one look at a reply path into the state of the waiting call: a
/// delivered reply is returned exactly as it was sent.
pub fn settle(p: Polled<String>) -> (r: ReplyPoll)
    ensures
        settle_spec(p) matches Some(v) ==> r == ReplyPoll::Ready(v),
        settle_spec(p) is None ==> r == ReplyPoll::Pending,
{
    match p {
        Polled::Item(s) => ReplyPoll::Ready(Some(s)),
        Polled::Closed => ReplyPoll::Ready(None),
        Polled::Empty => ReplyPoll::Pending,
    }
}

/// The receiving half of the reply path of one dispatched request. Only the
/// call that sent the request holds it.
pub struct PendingReply {
    rx: UnboundedReceiver<String>,
}

impl PendingReply {
    /// Looks at the reply path without waiting.
    pub fn poll(&mut self) -> (r: ReplyPoll) {
        settle(poll_receiver(&mut self.rx))
    }

    /// The receiving half, for a caller that waits on it asynchronously.
    pub fn receiver(&mut self) -> &mut UnboundedReceiver<String> {
        &mut self.rx
    }

    /// The receiving half, for a caller that waits on it asynchronously.
    pub fn into_receiver(self) -> UnboundedReceiver<String> {
        self.rx
    }
}

/// Sends `message` to the inbox registered for `actor`, paired with a fresh
/// reply path, and returns the waiting end of that path.
/// Fails with `NotInitialized` exactly when no inbox is registered for the
/// actor, and otherwise only with `QueueClosed`, when the actor has stopped
/// consuming its inbox.
pub fn send_to(registry: &Registry, actor: Actor, message: String) -> (r: Result<PendingReply, DispatchError>)
    ensures
        r matches Err(DispatchError::NotInitialized) <==> !registry.is_registered(actor),
        r matches Err(e) ==> (e == DispatchError::NotInitialized || e == DispatchError::QueueClosed),
{
    match registry.lookup(actor) {
        None => Err(DispatchError::NotInitialized),
        Some(inbox) => {
            let (response_tx, response_rx) = unbounded_channel();
            let event = Event::new(message, response_tx);
            if enqueue(inbox, event) {
                Ok(PendingReply { rx: response_rx })
            } else {
                Err(DispatchError::QueueClosed)
            }
        },
    }
}

} // verus!
