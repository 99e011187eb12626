//! The two wallet actors. Each owns the receiving half of its inbox and is
//! driven one step at a time: a step looks at the inbox (and, for the
//! account, at the reply path of its own request to the stronghold) without
//! waiting, and acts on what it found.
//!
//! The account waits on the stronghold while it serves a request, so the
//! stronghold must never send a request back to the account: a cycle of
//! actors waiting on each other would never make progress.
use vstd::prelude::*;
use tokio::sync::mpsc::UnboundedReceiver;
use crate::channel::{poll_receiver, Polled};
use crate::dispatch::{send_to, PendingReply, ReplyPoll};
use crate::error::DispatchError;
use crate::event::Event;
use crate::identity::Actor;
use crate::registry::Registry;

verus! {

/// What one step of an actor did.
#[derive(Debug, PartialEq, Eq)]
pub enum Step {
    /// Nothing was queued; nothing changed.
    Idle,
    /// The inbox is empty and closed: the actor is finished.
    Stopped,
    /// A request was taken and the actor sent its own request to a peer.
    Forwarded,
    /// The peer has not replied yet.
    Waiting,
    /// A reply was sent for the request being served.
    Replied,
    /// The request being served ended without a reply.
    Failed(DispatchError),
}

/// The stronghold's reply, whatever it was asked.
pub open spec fn stronghold_reply_text() -> Seq<char> {
    "response"@
}

/// The account's reply once its request to the stronghold has settled.
pub open spec fn account_reply_text() -> Seq<char> {
    "{ \"response\": 5 }"@
}

/// What the account asks the stronghold while it serves a request.
pub open spec fn account_forward_text() -> Seq<char> {
    "message from Account actor"@
}

pub fn stronghold_reply() -> (r: String)
    ensures
        r@ == stronghold_reply_text(),
{
    "response".to_owned()
}

pub fn account_forward() -> (r: String)
    ensures
        r@ == account_forward_text(),
{
    "message from Account actor".to_owned()
}

/// The account's reply to a request whose own request to the stronghold
/// has settled.
pub fn account_response() -> (r: String)
    ensures
        r@ == account_reply_text(),
{
    "{ \"response\": 5 }".to_owned()
}

/// The account's reply to a request, given how its own request to the
/// stronghold ended: once the stronghold's reply path has settled the
/// account answers; when the request could not be sent at all it answers
/// nothing, and the caller sees its reply path close.
pub fn account_reply(nested: Result<Option<String>, DispatchError>) -> (r: Option<String>)
    ensures
        nested is Ok ==> (r matches Some(s) && s@ == account_reply_text()),
        nested is Err ==> r is None,
{
    match nested {
        Ok(_) => Some(account_response()),
        Err(_) => None,
    }
}

pub struct StrongholdBuilder {
    rx: Option<UnboundedReceiver<Event>>,
}

impl StrongholdBuilder {
    /// The inbox handed to the builder, if any.
    pub closed spec fn given_inbox(&self) -> Option<UnboundedReceiver<Event>> {
        self.rx
    }

    pub fn new() -> (r: Self)
        ensures
            r.given_inbox() is None,
    {
        StrongholdBuilder { rx: None }
    }

    pub fn rx(self, rx: UnboundedReceiver<Event>) -> (r: Self)
        ensures
            r.given_inbox() == Some(rx),
    {
        StrongholdBuilder { rx: Some(rx) }
    }

    /// Builds a stronghold that owns the given inbox. Fails with
    /// `ConfigurationError` when no inbox was given.
    pub fn build(self) -> (r: Result<Stronghold, DispatchError>)
        ensures
            self.given_inbox() is Some <==> r is Ok,
            r matches Ok(s) ==> self.given_inbox() == Some(s.inbox_spec()),
            self.given_inbox() is None ==> r == Err::<Stronghold, DispatchError>(DispatchError::ConfigurationError),
    {
        match self.rx {
            Some(rx) => Ok(Stronghold { rx }),
            None => Err(DispatchError::ConfigurationError),
        }
    }
}

/// Answers every request at once with a fixed reply.
pub struct Stronghold {
    rx: UnboundedReceiver<Event>,
}

impl Stronghold {
    /// The receiving half of the stronghold's inbox.
    pub closed spec fn inbox_spec(&self) -> UnboundedReceiver<Event> {
        self.rx
    }

    /// Replies to one request.
    pub fn handle(&self, event: Event) -> (r: Result<(), DispatchError>)
        ensures
            r is Ok || r == Err::<(), DispatchError>(DispatchError::ReplyPathClosed),
    {
        event.reply(stronghold_reply())
    }

    /// Acts on one look at the inbox: an empty inbox leaves nothing to do, a
    /// closed one ends the actor, and a request is replied to.
    pub fn on_polled(&self, p: Polled<Event>) -> (r: Step)
        ensures
            p is Empty ==> r is Idle,
            p is Closed ==> r is Stopped,
            p is Item ==> (r is Replied || r == Step::Failed(DispatchError::ReplyPathClosed)),
    {
        match p {
            Polled::Item(event) => match self.handle(event) {
                Ok(()) => Step::Replied,
                Err(e) => Step::Failed(e),
            },
            Polled::Empty => Step::Idle,
            Polled::Closed => Step::Stopped,
        }
    }

    /// Takes the oldest queued request, if any, and replies to it.
    pub fn step(&mut self) -> (r: Step)
        ensures
            r is Idle || r is Stopped || r is Replied
                || r == Step::Failed(DispatchError::ReplyPathClosed),
    {
        let p = poll_receiver(&mut self.rx);
        self.on_polled(p)
    }

    /// The inbox, for a caller that waits on it asynchronously.
    pub fn inbox(&mut self) -> &mut UnboundedReceiver<Event> {
        &mut self.rx
    }
}

pub struct AccountBuilder {
    rx: Option<UnboundedReceiver<Event>>,
}

impl AccountBuilder {
    /// The inbox handed to the builder, if any.
    pub closed spec fn given_inbox(&self) -> Option<UnboundedReceiver<Event>> {
        self.rx
    }

    pub fn new() -> (r: Self)
        ensures
            r.given_inbox() is None,
    {
        AccountBuilder { rx: None }
    }

    pub fn rx(self, rx: UnboundedReceiver<Event>) -> (r: Self)
        ensures
            r.given_inbox() == Some(rx),
    {
        AccountBuilder { rx: Some(rx) }
    }

    /// Builds an idle account that owns the given inbox. Fails with
    /// `ConfigurationError` when no inbox was given.
    pub fn build(self) -> (r: Result<Account, DispatchError>)
        ensures
            self.given_inbox() is Some <==> r is Ok,
            r matches Ok(a) ==> !a.is_serving() && self.given_inbox() == Some(a.inbox_spec()),
            self.given_inbox() is None ==> r == Err::<Account, DispatchError>(DispatchError::ConfigurationError),
    {
        match self.rx {
            Some(rx) => Ok(Account { rx, serving: None }),
            None => Err(DispatchError::ConfigurationError),
        }
    }
}

/// Serves each request by first asking the stronghold and waiting for its
/// reply path to settle, and only then replying.
pub struct Account {
    rx: UnboundedReceiver<Event>,
    /// The request being served, with the reply path of the account's own
    /// request to the stronghold.
    serving: Option<(Event, PendingReply)>,
}

impl Account {
    /// The receiving half of the account's inbox.
    pub closed spec fn inbox_spec(&self) -> UnboundedReceiver<Event> {
        self.rx
    }

    /// Whether a request is being served: it has been taken from the inbox
    /// and not yet replied to.
    pub closed spec fn is_serving(&self) -> bool {
        self.serving is Some
    }

    /// The request being served.
    pub closed spec fn served_event(&self) -> Event {
        self.serving->Some_0.0
    }

    pub fn serving(&self) -> (r: bool)
        ensures
            r == self.is_serving(),
    {
        self.serving.is_some()
    }

    /// Acts on one look at the inbox while no request is being served: an
    /// empty inbox leaves nothing to do, a closed one ends the actor, and a
    /// request is served by forwarding a request of the account's own to the
    /// stronghold. When that cannot be sent the request is dropped, which
    /// closes its reply path. The inbox itself is left as it is.
    pub fn on_request(&mut self, registry: &Registry, p: Polled<Event>) -> (r: Step)
        requires
            !old(self).is_serving(),
        ensures
            final(self).inbox_spec() == old(self).inbox_spec(),
            p is Empty ==> r is Idle && !final(self).is_serving(),
            p is Closed ==> r is Stopped && !final(self).is_serving(),
            p matches Polled::Item(e) ==> {
                &&& !registry.is_registered(Actor::Stronghold)
                    ==> r == Step::Failed(DispatchError::NotInitialized) && !final(self).is_serving()
                &&& registry.is_registered(Actor::Stronghold) ==> (
                    (r is Forwarded && final(self).is_serving() && final(self).served_event() == e)
                    || (r == Step::Failed(DispatchError::QueueClosed) && !final(self).is_serving()))
            },
    {
        match p {
            Polled::Item(event) => match send_to(registry, Actor::Stronghold, account_forward()) {
                Ok(pending) => {
                    self.serving = Some((event, pending));
                    Step::Forwarded
                },
                Err(e) => Step::Failed(e),
            },
            Polled::Empty => Step::Idle,
            Polled::Closed => Step::Stopped,
        }
    }

    /// Ends the request being served once the stronghold's reply path has
    /// settled, handing back that request and the reply it is owed; while
    /// the path is still open nothing changes.
    pub fn take_settled(&mut self, poll: ReplyPoll) -> (r: Option<(Event, String)>)
        requires
            old(self).is_serving(),
        ensures
            final(self).inbox_spec() == old(self).inbox_spec(),
            poll is Pending ==> r is None && *final(self) == *old(self),
            poll is Ready ==> !final(self).is_serving() && (r matches Some((e, s))
                && e == old(self).served_event() && s@ == account_reply_text()),
    {
        match poll {
            ReplyPoll::Pending => None,
            ReplyPoll::Ready(_) => {
                let (event, _) = self.serving.take().unwrap();
                Some((event, account_response()))
            },
        }
    }

    /// Acts on one look at the stronghold's reply path while a request is
    /// being served: once the path has settled, the request gets its one
    /// reply; until then the account keeps waiting.
    pub fn on_peer_reply(&mut self, poll: ReplyPoll) -> (r: Step)
        requires
            old(self).is_serving(),
        ensures
            final(self).inbox_spec() == old(self).inbox_spec(),
            poll is Pending ==> r is Waiting && final(self).is_serving(),
            poll is Ready ==> (r is Replied || r == Step::Failed(DispatchError::ReplyPathClosed))
                && !final(self).is_serving(),
    {
        let is_pending = match &poll {
            ReplyPoll::Pending => true,
            ReplyPoll::Ready(_) => false,
        };
        match self.take_settled(poll) {
            Some((event, text)) => match event.reply(text) {
                Ok(()) => Step::Replied,
                Err(e) => Step::Failed(e),
            },
            None => {
                assert(is_pending);
                Step::Waiting
            },
        }
    }

    /// Looks at the stronghold's reply path of the request being served.
    fn poll_peer(&mut self) -> (r: ReplyPoll)
        requires
            old(self).is_serving(),
        ensures
            final(self).is_serving(),
            final(self).inbox_spec() == old(self).inbox_spec(),
            final(self).served_event() == old(self).served_event(),
    {
        let (event, mut pending) = self.serving.take().unwrap();
        let r = pending.poll();
        self.serving = Some((event, pending));
        r
    }

    /// While no request is being served, takes the oldest queued one and
    /// forwards a request of its own to the stronghold; while one is, looks
    /// at the stronghold's reply path and replies once it has settled.
    pub fn step(&mut self, registry: &Registry) -> (r: Step)
        ensures
            !old(self).is_serving() ==> (r is Idle || r is Stopped || r is Forwarded
                || r == Step::Failed(DispatchError::NotInitialized)
                || r == Step::Failed(DispatchError::QueueClosed)),
            old(self).is_serving() ==> (r is Waiting || r is Replied
                || r == Step::Failed(DispatchError::ReplyPathClosed)),
            old(self).is_serving() ==> final(self).inbox_spec() == old(self).inbox_spec(),
            r is Forwarded ==> registry.is_registered(Actor::Stronghold),
            final(self).is_serving() <==> (r is Forwarded || r is Waiting),
    {
        if self.serving() {
            let poll = self.poll_peer();
            self.on_peer_reply(poll)
        } else {
            let p = poll_receiver(&mut self.rx);
            self.on_request(registry, p)
        }
    }

    /// The inbox, for a caller that waits on it asynchronously.
    pub fn inbox(&mut self) -> &mut UnboundedReceiver<Event> {
        &mut self.rx
    }

    /// The stronghold's reply path of the request being served, for a
    /// caller that waits on it asynchronously.
    pub fn peer_reply_path(&mut self) -> Option<&mut UnboundedReceiver<String>> {
        match self.serving.as_mut() {
            Some(pair) => Some(pair.1.receiver()),
            None => None,
        }
    }
}

} // verus!
