use vstd::prelude::*;

verus! {

/// Every way a registration, a dispatch or a reply can fail.
#[derive(Clone, Copy, Debug, PartialEq, Eq, Structural)]
pub enum DispatchError {
    /// No inbox has been registered for the target actor yet.
    NotInitialized,
    /// An inbox is already registered for this actor.
    AlreadyRegistered,
    /// The target actor's inbox no longer has a consumer.
    QueueClosed,
    /// The caller waiting on a reply path has gone away.
    ReplyPathClosed,
    /// A builder was asked to build without a required dependency.
    ConfigurationError,
}

} // verus!
