use vstd::prelude::*;
use crate::errors::SessionError;

verus! {

/// Sync progress and cancellation state.
///
/// The state machine is `Idle -> Syncing -> Idle`: [`SyncState::start_sync`]
/// is the only transition into `Syncing` and refuses to run while a sync is
/// already active; [`SyncState::end_sync`] is the only path back to `Idle`
/// and must run on every exit path of a sync attempt. Cancellation is an
/// advisory flag: the coordinator guarantees its visibility, not its
/// enforcement, and the chain-sync engine is expected to poll it.
#[derive(Clone, Copy, Debug, PartialEq, Eq, Structural)]
pub struct SyncState {
    /// Whether a chain sync is currently running.
    pub is_syncing: bool,
    /// Latest block the in-flight sync has processed.
    pub current_block: u64,
    /// Target block (chain tip) of the in-flight sync.
    pub target_block: u64,
    /// Whether the running sync is the first one after wallet creation.
    pub is_first_sync: bool,
    /// Advisory flag asking the in-flight sync to stop.
    pub cancel_requested: bool,
}

/// Sync status snapshot handed to pollers.
#[derive(Clone, Copy, Debug, PartialEq, Eq, Structural)]
pub struct SyncStatus {
    pub is_syncing: bool,
    pub is_first_sync: bool,
    pub current_block: u64,
    pub target_block: u64,
    /// Progress in whole percent, always in `0 ..= 100`.
    pub percentage: u64,
}

/// Progress notification payload emitted while a sync runs. Advisory
/// telemetry: nothing else in this core depends on it.
#[derive(Debug)]
pub struct SyncProgress {
    pub current_block: u64,
    pub target_block: u64,
    /// Progress in whole percent, always in `0 ..= 100`.
    pub percentage: u64,
    pub is_first_sync: bool,
    /// Human-readable phase label.
    pub status: String,
}

/// A sync may start only while no other sync is active.
pub open spec fn start_sync_allowed(s: SyncState) -> bool {
    !s.is_syncing
}

/// State after a successful `start_sync(is_first)`: syncing, with the
/// first-sync marker set as requested and the cancellation flag cleared.
pub open spec fn spec_start_sync(s: SyncState, is_first: bool) -> SyncState {
    SyncState { is_syncing: true, is_first_sync: is_first, cancel_requested: false, ..s }
}

/// State after `end_sync`: idle, with the first-sync marker cleared.
pub open spec fn spec_end_sync(s: SyncState) -> SyncState {
    SyncState { is_syncing: false, is_first_sync: false, ..s }
}

/// Progress in whole percent: `min(100, current * 100 / target)`, with a
/// target of zero reported as 0% to avoid dividing by zero.
pub open spec fn spec_percentage(current: u64, target: u64) -> int {
    if target == 0 {
        0
    } else if current as int * 100 / target as int > 100 {
        100
    } else {
        current as int * 100 / target as int
    }
}

impl SyncState {
    /// A fresh, idle sync state.
    pub fn new() -> (s: Self)
        ensures
            s == (SyncState {
                is_syncing: false,
                current_block: 0,
                target_block: 0,
                is_first_sync: false,
                cancel_requested: false,
            }),
    {
        SyncState {
            is_syncing: false,
            current_block: 0,
            target_block: 0,
            is_first_sync: false,
            cancel_requested: false,
        }
    }

    /// Check-and-set entry into `Syncing`. Fails with `AlreadySyncing`, and
    /// changes nothing, when a sync is already active; the check and the set
    /// are one atomic step with respect to this state value.
    pub fn start_sync(&mut self, is_first: bool) -> (r: Result<(), SessionError>)
        ensures
            old(self).is_syncing ==> r == Err::<(), SessionError>(SessionError::AlreadySyncing)
                && *final(self) == *old(self),
            !old(self).is_syncing ==> r == Ok::<(), SessionError>(())
                && *final(self) == spec_start_sync(*old(self), is_first),
    {
        if self.is_syncing {
            Err(SessionError::AlreadySyncing)
        } else {
            self.is_syncing = true;
            self.is_first_sync = is_first;
            self.cancel_requested = false;
            Ok(())
        }
    }

    /// Unconditional return to `Idle`. Safe to call at any time, including
    /// when no sync is active.
    pub fn end_sync(&mut self)
        ensures
            *final(self) == spec_end_sync(*old(self)),
    {
        self.is_syncing = false;
        self.is_first_sync = false;
    }

    /// Overwrite both progress counters.
    pub fn update_progress(&mut self, current: u64, target: u64)
        ensures
            *final(self) == (SyncState { current_block: current, target_block: target, ..*old(self) }),
    {
        self.current_block = current;
        self.target_block = target;
    }

    /// Whether a sync is currently active.
    pub fn is_syncing(&self) -> (r: bool)
        ensures
            r == self.is_syncing,
    {
        self.is_syncing
    }

    /// Whether cancellation of the in-flight sync has been requested.
    pub fn is_cancelled(&self) -> (r: bool)
        ensures
            r == self.cancel_requested,
    {
        self.cancel_requested
    }

    /// Request cancellation of the in-flight sync. Advisory and
    /// non-blocking: it returns at once and changes nothing else.
    pub fn request_cancel(&mut self)
        ensures
            *final(self) == (SyncState { cancel_requested: true, ..*old(self) }),
    {
        self.cancel_requested = true;
    }

    /// Current and target block of the in-flight (or last) sync.
    pub fn get_progress(&self) -> (r: (u64, u64))
        ensures
            r.0 == self.current_block,
            r.1 == self.target_block,
    {
        (self.current_block, self.target_block)
    }

    /// Snapshot of the sync state with the progress percentage computed.
    pub fn get_sync_status(&self) -> (st: SyncStatus)
        ensures
            st.is_syncing == self.is_syncing,
            st.is_first_sync == self.is_first_sync,
            st.current_block == self.current_block,
            st.target_block == self.target_block,
            st.percentage == spec_percentage(self.current_block, self.target_block),
    {
        SyncStatus {
            is_syncing: self.is_syncing,
            is_first_sync: self.is_first_sync,
            current_block: self.current_block,
            target_block: self.target_block,
            percentage: percentage(self.current_block, self.target_block),
        }
    }
}

/// Progress in whole percent, clamped to `0 ..= 100`.
pub fn percentage(current: u64, target: u64) -> (p: u64)
    ensures
        p == spec_percentage(current, target),
        p <= 100,
{
    if target == 0 {
        0
    } else {
        let raw: u128 = (current as u128) * 100 / (target as u128);
        if raw > 100 {
            100
        } else {
            raw as u64
        }
    }
}

/// At most one sync session is active at any time: starting from an idle
/// state succeeds and occupies the `Syncing` state, after which a further
/// start is refused (and, by the contract of [`SyncState::start_sync`],
/// leaves the active session's state untouched).
pub proof fn lemma_at_most_one_sync(s: SyncState, first1: bool, first2: bool)
    requires
        start_sync_allowed(s),
    ensures
        spec_start_sync(s, first1).is_syncing,
        !start_sync_allowed(spec_start_sync(s, first1)),
{
}

/// `end_sync` always leaves the state idle, is idempotent, and is a safe
/// no-op on a state where no sync is active.
pub proof fn lemma_end_sync_idempotent(s: SyncState)
    ensures
        !spec_end_sync(s).is_syncing,
        spec_end_sync(spec_end_sync(s)) == spec_end_sync(s),
        !s.is_syncing && !s.is_first_sync ==> spec_end_sync(s) == s,
{
}

} // verus!
