//! Bringing the actors up: every inbox is registered before any actor is
//! handed its receiving half, so no request can reach an identity whose
//! inbox exists but is not yet discoverable.
use vstd::prelude::*;
use tokio::sync::mpsc::unbounded_channel;
use crate::actors::{Account, AccountBuilder, Stronghold, StrongholdBuilder};
use crate::error::DispatchError;
use crate::identity::Actor;
use crate::registry::Registry;

verus! {

/// The outcome of a start: both actors, or why none was started. A start
/// either registers every identity or registers nothing.
pub open spec fn start_ok(before: Registry, after: Registry, r: Result<(Account, Stronghold), DispatchError>) -> bool {
    if before.is_registered(Actor::Account) || before.is_registered(Actor::Stronghold) {
        r == Err::<(Account, Stronghold), DispatchError>(DispatchError::AlreadyRegistered)
            && after == before
    } else {
        &&& r is Ok
        &&& after@.dom() == before@.dom().insert(Actor::Account).insert(Actor::Stronghold)
        &&& r matches Ok((a, _)) && !a.is_serving()
    }
}

pub struct WalletBuilder {}

impl WalletBuilder {
    pub fn new() -> Self {
        WalletBuilder {}
    }

    pub fn build(self) -> Wallet {
        Wallet {}
    }
}

/// The application that owns the actors.
pub struct Wallet {}

impl Wallet {
    /// Makes each actor's inbox, registers every sending half, and only then
    /// builds the actors around the receiving halves. The actors are
    /// returned to be run; nothing has been sent to them yet.
    pub fn run(self, registry: &mut Registry) -> (r: Result<(Account, Stronghold), DispatchError>)
        ensures
            start_ok(*old(registry), *final(registry), r),
    {
        if registry.contains(Actor::Account) || registry.contains(Actor::Stronghold) {
            return Err(DispatchError::AlreadyRegistered);
        }
        let (account_tx, account_rx) = unbounded_channel();
        let (stronghold_tx, stronghold_rx) = unbounded_channel();
        let r1 = registry.register(Actor::Account, account_tx);
        let r2 = registry.register(Actor::Stronghold, stronghold_tx);
        assert(r1 is Ok && r2 is Ok);
        let account = AccountBuilder::new().rx(account_rx).build().unwrap();
        let stronghold = StrongholdBuilder::new().rx(stronghold_rx).build().unwrap();
        Ok((account, stronghold))
    }
}

pub struct AppsBuilder {
    wallet: Option<WalletBuilder>,
}

impl AppsBuilder {
    pub fn new() -> Self {
        AppsBuilder { wallet: None }
    }

    pub fn wallet(self, wallet: WalletBuilder) -> Self {
        AppsBuilder { wallet: Some(wallet) }
    }

    /// Builds the applications, with a default wallet where none was given.
    pub fn build(self) -> Apps {
        let wallet = match self.wallet {
            Some(w) => w,
            None => WalletBuilder::new(),
        };
        Apps { wallet }
    }
}

/// The built applications, ready to be started.
pub struct Apps {
    wallet: WalletBuilder,
}

impl Apps {
    pub fn start(self, registry: &mut Registry) -> (r: Result<(Account, Stronghold), DispatchError>)
        ensures
            start_ok(*old(registry), *final(registry), r),
    {
        self.wallet.build().run(registry)
    }
}

/// Brings the runtime up on `registry`. A second call on the same registry
/// fails with `AlreadyRegistered` and changes nothing.
pub fn init(registry: &mut Registry) -> (r: Result<(Account, Stronghold), DispatchError>)
    ensures
        start_ok(*old(registry), *final(registry), r),
{
    AppsBuilder::new().wallet(WalletBuilder::new()).build().start(registry)
}

} // verus!
