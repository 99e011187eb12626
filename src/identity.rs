use vstd::prelude::*;

verus! {

/// The closed set of actor kinds that can own an inbox.
#[derive(Clone, Copy, Debug, PartialEq, Eq, Structural)]
pub enum Actor {
    Account,
    Stronghold,
}

} // verus!
