//! The write-once table from actor identity to the sending half of its inbox.
use vstd::prelude::*;
use tokio::sync::mpsc::UnboundedSender;
use crate::error::DispatchError;
use crate::event::Event;
use crate::identity::Actor;

verus! {

/// What registering `tx` for `id` in a table `m` returns, and the table after.
pub open spec fn register_outcome(
    m: Map<Actor, UnboundedSender<Event>>,
    id: Actor,
    tx: UnboundedSender<Event>,
) -> (Result<(), DispatchError>, Map<Actor, UnboundedSender<Event>>) {
    if m.contains_key(id) {
        (Err(DispatchError::AlreadyRegistered), m)
    } else {
        (Ok(()), m.insert(id, tx))
    }
}

/// One inbox slot per actor identity, each filled at most once.
pub struct Registry {
    account: Option<UnboundedSender<Event>>,
    stronghold: Option<UnboundedSender<Event>>,
}

impl Registry {
    /// The slot of `id`.
    pub closed spec fn slot(&self, id: Actor) -> Option<UnboundedSender<Event>> {
        match id {
            Actor::Account => self.account,
            Actor::Stronghold => self.stronghold,
        }
    }

    /// The registered identities, each with its inbox's sending half.
    pub open spec fn view(&self) -> Map<Actor, UnboundedSender<Event>> {
        Map::new(|id: Actor| self.slot(id) is Some, |id: Actor| self.slot(id)->Some_0)
    }

    pub open spec fn is_registered(&self, id: Actor) -> bool {
        self@.contains_key(id)
    }

    /// A registry in which no identity is registered.
    pub fn new() -> (r: Self)
        ensures
            r@ == Map::<Actor, UnboundedSender<Event>>::empty(),
    {
        let r = Registry { account: None, stronghold: None };
        assert(r@ =~= Map::<Actor, UnboundedSender<Event>>::empty());
        r
    }

    /// Fills the slot of `id` with `tx`. A slot already filled is left as it
    /// is and the call fails with `AlreadyRegistered`.
    pub fn register(&mut self, id: Actor, tx: UnboundedSender<Event>) -> (r: Result<(), DispatchError>)
        ensures
            (r, final(self)@) == register_outcome(old(self)@, id, tx),
            old(self).is_registered(id) ==> *final(self) == *old(self),
    {
        match id {
            Actor::Account => {
                if self.account.is_some() {
                    return Err(DispatchError::AlreadyRegistered);
                }
                self.account = Some(tx);
            },
            Actor::Stronghold => {
                if self.stronghold.is_some() {
                    return Err(DispatchError::AlreadyRegistered);
                }
                self.stronghold = Some(tx);
            },
        }
        assert(self@ =~= old(self)@.insert(id, tx));
        Ok(())
    }

    /// Whether an inbox is registered for `id`.
    pub fn contains(&self, id: Actor) -> (r: bool)
        ensures
            r == self.is_registered(id),
    {
        match id {
            Actor::Account => self.account.is_some(),
            Actor::Stronghold => self.stronghold.is_some(),
        }
    }

    /// The sending half registered for `id`, if any.
    pub fn lookup(&self, id: Actor) -> (r: Option<&UnboundedSender<Event>>)
        ensures
            self.is_registered(id) ==> r == Some(&self@[id]),
            !self.is_registered(id) ==> r is None,
    {
        match id {
            Actor::Account => self.account.as_ref(),
            Actor::Stronghold => self.stronghold.as_ref(),
        }
    }
}

/// The table after registering each `(identity, sender)` of `regs` in
/// turn, starting from `m`.
pub open spec fn register_each(
    m: Map<Actor, UnboundedSender<Event>>,
    regs: Seq<(Actor, UnboundedSender<Event>)>,
) -> Map<Actor, UnboundedSender<Event>>
    decreases regs.len(),
{
    if regs.len() == 0 {
        m
    } else {
        let last = regs.last();
        register_outcome(register_each(m, regs.drop_last()), last.0, last.1).1
    }
}

/// An identity that no registration names stays unregistered, whatever else
/// was registered, so every dispatch to it fails with `NotInitialized`.
pub proof fn lemma_never_registered(regs: Seq<(Actor, UnboundedSender<Event>)>, id: Actor)
    requires
        forall|i: int| 0 <= i < regs.len() ==> (#[trigger] regs[i]).0 != id,
    ensures
        !register_each(Map::empty(), regs).contains_key(id),
    decreases regs.len(),
{
    if regs.len() > 0 {
        let init = regs.drop_last();
        assert forall|i: int| 0 <= i < init.len() implies (#[trigger] init[i]).0 != id by {
            assert(init[i] == regs[i]);
        }
        lemma_never_registered(init, id);
        assert(regs.last() == regs[regs.len() - 1]);
    }
}

/// After a first registration of `id` succeeds, a second one for the same
/// identity fails with `AlreadyRegistered` and leaves the first in place.
pub proof fn lemma_second_register_fails(
    m: Map<Actor, UnboundedSender<Event>>,
    id: Actor,
    first: UnboundedSender<Event>,
    second: UnboundedSender<Event>,
)
    requires
        !m.contains_key(id),
    ensures
        ({
            let (r1, m1) = register_outcome(m, id, first);
            let (r2, m2) = register_outcome(m1, id, second);
            &&& r1 is Ok
            &&& r2 == Err::<(), DispatchError>(DispatchError::AlreadyRegistered)
            &&& m2 == m1
            &&& m2[id] == first
        }),
{
}

} // verus!
