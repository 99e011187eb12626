//! A request bundled with the single-use path its reply travels back on.
use vstd::prelude::*;
use tokio::sync::mpsc::UnboundedSender;
use crate::channel::enqueue;
use crate::error::DispatchError;

verus! {

/// A request payload and the reply path of the one call that sent it.
/// Replying consumes the event, so at most one reply can ever be sent.
pub struct Event {
    message: String,
    response_tx: UnboundedSender<String>,
}

impl Event {
    /// The request payload.
    pub closed spec fn payload(&self) -> Seq<char> {
        self.message@
    }

    /// The sending half of the reply path.
    pub closed spec fn reply_path(&self) -> UnboundedSender<String> {
        self.response_tx
    }

    pub fn new(message: String, response_tx: UnboundedSender<String>) -> (r: Self)
        ensures
            r.payload() == message@,
            r.reply_path() == response_tx,
    {
        Event { message, response_tx }
    }

    /// The request payload.
    pub fn message(&self) -> (r: &String)
        ensures
            r@ == self.payload(),
    {
        &self.message
    }

    /// Sends the one reply of this event. Fails with `ReplyPathClosed` when
    /// the caller has stopped waiting for it.
    pub fn reply(self, value: String) -> (r: Result<(), DispatchError>)
        ensures
            r is Ok || r == Err::<(), DispatchError>(DispatchError::ReplyPathClosed),
    {
        if enqueue(&self.response_tx, value) {
            Ok(())
        } else {
            Err(DispatchError::ReplyPathClosed)
        }
    }
}

} // verus!
