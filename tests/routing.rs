use tokio::sync::mpsc::error::TryRecvError;
use tokio::sync::mpsc::unbounded_channel;
use wallet_actor_system::actors::{
    account_reply, AccountBuilder, Step, StrongholdBuilder,
};
use wallet_actor_system::bootstrap::init;
use wallet_actor_system::channel::Polled;
use wallet_actor_system::dispatch::{send_to, ReplyPoll};
use wallet_actor_system::error::DispatchError;
use wallet_actor_system::event::Event;
use wallet_actor_system::identity::Actor;
use wallet_actor_system::registry::Registry;

fn err_of<T>(r: Result<T, DispatchError>) -> Option<DispatchError> {
    match r {
        Ok(_) => None,
        Err(e) => Some(e),
    }
}

#[test]
fn unregistered_identity_is_not_initialized() {
    let registry = Registry::new();
    for _ in 0..3 {
        assert_eq!(
            err_of(send_to(&registry, Actor::Account, "a".to_string())),
            Some(DispatchError::NotInitialized)
        );
        assert_eq!(
            err_of(send_to(&registry, Actor::Stronghold, "b".to_string())),
            Some(DispatchError::NotInitialized)
        );
    }
    assert!(!registry.contains(Actor::Account));
    assert!(!registry.contains(Actor::Stronghold));
}

#[test]
fn second_register_fails_and_first_stays() {
    let mut registry = Registry::new();
    let (tx1, mut rx1) = unbounded_channel();
    let (tx2, mut rx2) = unbounded_channel();
    assert_eq!(registry.register(Actor::Account, tx1), Ok(()));
    assert_eq!(
        registry.register(Actor::Account, tx2),
        Err(DispatchError::AlreadyRegistered)
    );
    assert!(registry.contains(Actor::Account));
    assert!(!registry.contains(Actor::Stronghold));
    let _pending = send_to(&registry, Actor::Account, "first".to_string()).ok().unwrap();
    let event = rx1.try_recv().unwrap();
    assert_eq!(event.message(), "first");
    assert_eq!(rx2.try_recv().err(), Some(TryRecvError::Disconnected));
}

#[test]
fn each_call_gets_its_own_reply() {
    let mut registry = Registry::new();
    let (tx, mut rx) = unbounded_channel();
    registry.register(Actor::Stronghold, tx).unwrap();
    let mut p1 = send_to(&registry, Actor::Stronghold, "one".to_string()).ok().unwrap();
    let mut p2 = send_to(&registry, Actor::Stronghold, "two".to_string()).ok().unwrap();
    assert_eq!(p1.poll(), ReplyPoll::Pending);
    let e1 = rx.try_recv().unwrap();
    let e2 = rx.try_recv().unwrap();
    assert_eq!(e1.message(), "one");
    assert_eq!(e2.message(), "two");
    assert_eq!(e2.reply("R2".to_string()), Ok(()));
    assert_eq!(p1.poll(), ReplyPoll::Pending);
    assert_eq!(e1.reply("R1".to_string()), Ok(()));
    assert_eq!(p1.poll(), ReplyPoll::Ready(Some("R1".to_string())));
    assert_eq!(p2.poll(), ReplyPoll::Ready(Some("R2".to_string())));
}

#[test]
fn inbox_is_consumed_in_enqueue_order() {
    let mut registry = Registry::new();
    let (tx, mut rx) = unbounded_channel();
    registry.register(Actor::Account, tx).unwrap();
    let mut pending = Vec::new();
    for m in ["m1", "m2", "m3", "m4"] {
        pending.push(send_to(&registry, Actor::Account, m.to_string()).ok().unwrap());
    }
    let mut seen = Vec::new();
    while let Ok(event) = rx.try_recv() {
        let text = event.message().clone();
        event.reply(format!("re:{}", text)).unwrap();
        seen.push(text);
    }
    assert_eq!(seen, vec!["m1", "m2", "m3", "m4"]);
    let replies: Vec<ReplyPoll> = pending.iter_mut().map(|p| p.poll()).collect();
    assert_eq!(
        replies,
        vec![
            ReplyPoll::Ready(Some("re:m1".to_string())),
            ReplyPoll::Ready(Some("re:m2".to_string())),
            ReplyPoll::Ready(Some("re:m3".to_string())),
            ReplyPoll::Ready(Some("re:m4".to_string())),
        ]
    );
}

#[test]
fn account_replies_with_its_response() {
    let mut registry = Registry::new();
    let (mut account, mut stronghold) = init(&mut registry).ok().unwrap();
    let mut pending = send_to(&registry, Actor::Account, "hello".to_string()).ok().unwrap();
    assert_eq!(account.step(&registry), Step::Forwarded);
    assert_eq!(stronghold.step(), Step::Replied);
    assert_eq!(account.step(&registry), Step::Replied);
    assert_eq!(
        pending.poll(),
        ReplyPoll::Ready(Some("{ \"response\": 5 }".to_string()))
    );
}

#[test]
fn dispatch_before_init_then_after() {
    let mut registry = Registry::new();
    assert_eq!(
        err_of(send_to(&registry, Actor::Stronghold, "x".to_string())),
        Some(DispatchError::NotInitialized)
    );
    let (_account, mut stronghold) = init(&mut registry).ok().unwrap();
    let mut pending = send_to(&registry, Actor::Stronghold, "x".to_string()).ok().unwrap();
    assert_eq!(stronghold.step(), Step::Replied);
    assert_eq!(pending.poll(), ReplyPoll::Ready(Some("response".to_string())));
}

#[test]
fn nested_reply_comes_before_account_reply() {
    let mut registry = Registry::new();
    let (mut account, mut stronghold) = init(&mut registry).ok().unwrap();
    let mut pending = send_to(&registry, Actor::Account, "nested".to_string()).ok().unwrap();
    assert_eq!(account.step(&registry), Step::Forwarded);
    assert!(account.serving());
    assert_eq!(account.step(&registry), Step::Waiting);
    assert_eq!(account.step(&registry), Step::Waiting);
    assert_eq!(pending.poll(), ReplyPoll::Pending);
    assert_eq!(stronghold.step(), Step::Replied);
    assert_eq!(pending.poll(), ReplyPoll::Pending);
    assert_eq!(account.step(&registry), Step::Replied);
    assert!(!account.serving());
    assert_eq!(
        pending.poll(),
        ReplyPoll::Ready(Some("{ \"response\": 5 }".to_string()))
    );
    assert_eq!(account.step(&registry), Step::Idle);
}

#[test]
fn closed_inbox_gives_queue_closed() {
    let mut registry = Registry::new();
    let (_account, stronghold) = init(&mut registry).ok().unwrap();
    drop(stronghold);
    assert_eq!(
        err_of(send_to(&registry, Actor::Stronghold, "y".to_string())),
        Some(DispatchError::QueueClosed)
    );
}

#[test]
fn init_twice_is_rejected() {
    let mut registry = Registry::new();
    let first = init(&mut registry);
    assert!(first.is_ok());
    assert_eq!(err_of(init(&mut registry)), Some(DispatchError::AlreadyRegistered));
    assert!(registry.contains(Actor::Account));
    assert!(registry.contains(Actor::Stronghold));
}

#[test]
fn init_after_partial_registration_is_rejected() {
    let mut registry = Registry::new();
    let (tx, _rx) = unbounded_channel();
    registry.register(Actor::Stronghold, tx).unwrap();
    assert_eq!(err_of(init(&mut registry)), Some(DispatchError::AlreadyRegistered));
    assert!(!registry.contains(Actor::Account));
}

#[test]
fn builders_without_inbox_fail() {
    assert_eq!(
        err_of(AccountBuilder::new().build()),
        Some(DispatchError::ConfigurationError)
    );
    assert_eq!(
        err_of(StrongholdBuilder::new().build()),
        Some(DispatchError::ConfigurationError)
    );
    let (_tx, rx) = unbounded_channel();
    assert!(StrongholdBuilder::new().rx(rx).build().is_ok());
}

#[test]
fn reply_to_departed_caller_fails() {
    let mut registry = Registry::new();
    let (tx, mut rx) = unbounded_channel();
    registry.register(Actor::Stronghold, tx).unwrap();
    let pending = send_to(&registry, Actor::Stronghold, "gone".to_string()).ok().unwrap();
    drop(pending);
    let event = rx.try_recv().unwrap();
    assert_eq!(
        event.reply("late".to_string()),
        Err(DispatchError::ReplyPathClosed)
    );
}

#[test]
fn dropped_event_closes_reply_path() {
    let mut registry = Registry::new();
    let (tx, mut rx) = unbounded_channel();
    registry.register(Actor::Stronghold, tx).unwrap();
    let mut pending = send_to(&registry, Actor::Stronghold, "q".to_string()).ok().unwrap();
    let event = rx.try_recv().unwrap();
    assert_eq!(pending.poll(), ReplyPoll::Pending);
    drop(event);
    assert_eq!(pending.poll(), ReplyPoll::Ready(None));
}

#[test]
fn account_without_stronghold_drops_request() {
    let mut registry = Registry::new();
    let (tx, rx) = unbounded_channel();
    registry.register(Actor::Account, tx).unwrap();
    let mut account = AccountBuilder::new().rx(rx).build().ok().unwrap();
    assert_eq!(account.step(&registry), Step::Idle);
    let mut pending = send_to(&registry, Actor::Account, "hi".to_string()).ok().unwrap();
    assert_eq!(
        account.step(&registry),
        Step::Failed(DispatchError::NotInitialized)
    );
    assert!(!account.serving());
    assert_eq!(pending.poll(), ReplyPoll::Ready(None));
}

#[test]
fn stronghold_stops_when_inbox_closes() {
    let (tx, rx) = unbounded_channel();
    let mut stronghold = StrongholdBuilder::new().rx(rx).build().ok().unwrap();
    assert_eq!(stronghold.step(), Step::Idle);
    drop(tx);
    assert_eq!(stronghold.step(), Step::Stopped);
}

#[test]
fn account_reply_depends_on_nested_outcome() {
    assert_eq!(
        account_reply(Ok(Some("response".to_string()))),
        Some("{ \"response\": 5 }".to_string())
    );
    assert_eq!(account_reply(Ok(None)), Some("{ \"response\": 5 }".to_string()));
    assert_eq!(account_reply(Err(DispatchError::QueueClosed)), None);
}

#[test]
fn lookup_finds_only_registered_inboxes() {
    let mut registry = Registry::new();
    assert!(registry.lookup(Actor::Account).is_none());
    let (tx, mut rx) = unbounded_channel();
    registry.register(Actor::Account, tx).unwrap();
    assert!(registry.lookup(Actor::Stronghold).is_none());
    let inbox = registry.lookup(Actor::Account).unwrap();
    let (reply_tx, mut reply_rx) = unbounded_channel();
    assert!(inbox.send(Event::new("direct".to_string(), reply_tx)).is_ok());
    let event = rx.try_recv().unwrap();
    assert_eq!(event.message(), "direct");
    assert_eq!(event.reply("answer".to_string()), Ok(()));
    assert_eq!(reply_rx.try_recv().unwrap(), "answer");
}

#[test]
fn stronghold_acts_on_each_inbox_outcome() {
    let (tx, rx) = unbounded_channel();
    let stronghold = StrongholdBuilder::new().rx(rx).build().ok().unwrap();
    assert_eq!(stronghold.on_polled(Polled::Empty), Step::Idle);
    assert_eq!(stronghold.on_polled(Polled::Closed), Step::Stopped);
    let (reply_tx, mut reply_rx) = unbounded_channel();
    let event = Event::new("ask".to_string(), reply_tx);
    assert_eq!(stronghold.on_polled(Polled::Item(event)), Step::Replied);
    assert_eq!(reply_rx.try_recv().unwrap(), "response");
    let (gone_tx, gone_rx) = unbounded_channel();
    drop(gone_rx);
    let event = Event::new("ask".to_string(), gone_tx);
    assert_eq!(
        stronghold.on_polled(Polled::Item(event)),
        Step::Failed(DispatchError::ReplyPathClosed)
    );
    drop(tx);
}

#[test]
fn built_stronghold_owns_the_given_inbox() {
    let (tx, rx) = unbounded_channel();
    let mut stronghold = StrongholdBuilder::new().rx(rx).build().ok().unwrap();
    let (reply_tx, mut reply_rx) = unbounded_channel();
    tx.send(Event::new("via builder".to_string(), reply_tx)).unwrap();
    assert_eq!(stronghold.step(), Step::Replied);
    assert_eq!(reply_rx.try_recv().unwrap(), "response");
}

#[test]
fn account_acts_on_each_inbox_outcome() {
    let (_tx, rx) = unbounded_channel();
    let mut account = AccountBuilder::new().rx(rx).build().ok().unwrap();
    let empty = Registry::new();
    assert_eq!(account.on_request(&empty, Polled::Empty), Step::Idle);
    assert_eq!(account.on_request(&empty, Polled::Closed), Step::Stopped);
    let (reply_tx, mut reply_rx) = unbounded_channel();
    let event = Event::new("q".to_string(), reply_tx);
    assert_eq!(
        account.on_request(&empty, Polled::Item(event)),
        Step::Failed(DispatchError::NotInitialized)
    );
    assert!(!account.serving());
    assert_eq!(reply_rx.try_recv().err(), Some(TryRecvError::Disconnected));

    let mut registry = Registry::new();
    let (peer_tx, mut peer_rx) = unbounded_channel();
    registry.register(Actor::Stronghold, peer_tx).unwrap();
    let (reply_tx, mut reply_rx) = unbounded_channel();
    let event = Event::new("q".to_string(), reply_tx);
    assert_eq!(account.on_request(&registry, Polled::Item(event)), Step::Forwarded);
    assert!(account.serving());
    let forwarded = peer_rx.try_recv().unwrap();
    assert_eq!(forwarded.message(), "message from Account actor");
    assert_eq!(account.on_peer_reply(ReplyPoll::Pending), Step::Waiting);
    assert!(account.serving());
    assert_eq!(reply_rx.try_recv().err(), Some(TryRecvError::Empty));
    assert_eq!(
        account.on_peer_reply(ReplyPoll::Ready(Some("response".to_string()))),
        Step::Replied
    );
    assert!(!account.serving());
    assert_eq!(reply_rx.try_recv().unwrap(), "{ \"response\": 5 }");
    drop(forwarded);
}

#[test]
fn account_with_closed_stronghold_inbox_fails_to_forward() {
    let (_tx, rx) = unbounded_channel();
    let mut account = AccountBuilder::new().rx(rx).build().ok().unwrap();
    let mut registry = Registry::new();
    let (peer_tx, peer_rx) = unbounded_channel();
    registry.register(Actor::Stronghold, peer_tx).unwrap();
    drop(peer_rx);
    let (reply_tx, _reply_rx) = unbounded_channel();
    let event = Event::new("q".to_string(), reply_tx);
    assert_eq!(
        account.on_request(&registry, Polled::Item(event)),
        Step::Failed(DispatchError::QueueClosed)
    );
    assert!(!account.serving());
}

#[test]
fn account_settles_with_its_response_even_without_peer_reply() {
    let (_tx, rx) = unbounded_channel();
    let mut account = AccountBuilder::new().rx(rx).build().ok().unwrap();
    let mut registry = Registry::new();
    let (peer_tx, _peer_rx) = unbounded_channel();
    registry.register(Actor::Stronghold, peer_tx).unwrap();
    let (reply_tx, _reply_rx) = unbounded_channel();
    let event = Event::new("original".to_string(), reply_tx);
    account.on_request(&registry, Polled::Item(event));
    assert!(account.take_settled(ReplyPoll::Pending).is_none());
    assert!(account.serving());
    let (event, text) = account.take_settled(ReplyPoll::Ready(None)).unwrap();
    assert_eq!(event.message(), "original");
    assert_eq!(text, "{ \"response\": 5 }");
    assert!(!account.serving());
}
