//! The kinds of wallet events a listener can subscribe to, by name.
use vstd::prelude::*;

verus! {

#[derive(Clone, Copy, Debug, PartialEq, Eq, Structural)]
pub enum EventType {
    ErrorThrown,
    BalanceChange,
    NewTransaction,
    ConfirmationStateChange,
    Reattachment,
    Broadcast,
}

/// The event type with the name `s`, if there is one.
pub open spec fn event_type_named(s: Seq<char>) -> Option<EventType> {
    if s == "ErrorThrown"@ {
        Some(EventType::ErrorThrown)
    } else if s == "BalanceChange"@ {
        Some(EventType::BalanceChange)
    } else if s == "NewTransaction"@ {
        Some(EventType::NewTransaction)
    } else if s == "ConfirmationStateChange"@ {
        Some(EventType::ConfirmationStateChange)
    } else if s == "Reattachment"@ {
        Some(EventType::Reattachment)
    } else if s == "Broadcast"@ {
        Some(EventType::Broadcast)
    } else {
        None
    }
}

fn is_named(value: &String, name: &str) -> (r: bool)
    ensures
        r == (value@ == name@),
{
    let n = name.to_owned();
    value.eq(&n)
}

impl EventType {
    /// Parses an event type from its name. An unknown name fails with the
    /// message `invalid event name <name>`.
    pub fn try_from(value: &str) -> (r: Result<EventType, String>)
        ensures
            event_type_named(value@) matches Some(t) ==> r == Ok::<EventType, String>(t),
            event_type_named(value@) is None ==> (r matches Err(m) && m@ == "invalid event name "@ + value@),
    {
        let v = value.to_owned();
        if is_named(&v, "ErrorThrown") {
            Ok(EventType::ErrorThrown)
        } else if is_named(&v, "BalanceChange") {
            Ok(EventType::BalanceChange)
        } else if is_named(&v, "NewTransaction") {
            Ok(EventType::NewTransaction)
        } else if is_named(&v, "ConfirmationStateChange") {
            Ok(EventType::ConfirmationStateChange)
        } else if is_named(&v, "Reattachment") {
            Ok(EventType::Reattachment)
        } else if is_named(&v, "Broadcast") {
            Ok(EventType::Broadcast)
        } else {
            Err("invalid event name ".to_owned().concat(value))
        }
    }
}

} // verus!
