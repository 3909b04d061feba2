use vstd::prelude::*;

verus! {

/// Failure taxonomy of the session coordinator.
///
/// Every error is local to the call that produced it; the coordinator never
/// retries an operation on its own.
#[derive(Debug, PartialEq, Eq)]
pub enum SessionError {
    /// The operation requires a loaded wallet and none is present.
    WalletNotLoaded,
    /// A chain sync is already running; the caller may retry later.
    AlreadySyncing,
    /// A guarding lock could not be acquired; fatal for this call.
    LockUnavailable,
    /// The persistent store is not initialized.
    StoreUnavailable,
    /// A failure reported by the wallet engine or the persistent store,
    /// carrying enough context to be actionable.
    EngineFailure(String),
}

impl Clone for SessionError {
    /// An exact copy, so an error can be both recorded and returned.
    fn clone(&self) -> (r: Self)
        ensures
            r == *self,
    {
        match self {
            SessionError::WalletNotLoaded => SessionError::WalletNotLoaded,
            SessionError::AlreadySyncing => SessionError::AlreadySyncing,
            SessionError::LockUnavailable => SessionError::LockUnavailable,
            SessionError::StoreUnavailable => SessionError::StoreUnavailable,
            SessionError::EngineFailure(m) => SessionError::EngineFailure(m.clone()),
        }
    }
}

} // verus!
