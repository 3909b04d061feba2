use vstd::prelude::*;
use vstd::string::StringExecFns;
use vstd::arithmetic::div_mod::lemma_div_multiples_vanish;
use crate::errors::SessionError;
use crate::pending::{
    contains_id, spec_lookup, spec_removed, spec_update_all, PendingTransaction, PendingTxState,
    PendingTxStatus,
};
use crate::swap::{EphemeralAddress, SwapRecord};
use crate::swap_store::{
    spec_active, spec_ephemeral_upserted, spec_swaps_updated, spec_upserted, sorted_desc,
    SwapStore,
};
use crate::sync::{
    spec_end_sync, spec_percentage, spec_start_sync, SyncProgress, SyncState, SyncStatus,
};
use crate::wallet::IkkiWallet;

verus! {

/// The session coordinator: the single wallet cell, the sync flags, the
/// pending-transaction tracker and the swap store, composed as one
/// constructed-once context object handed to every handler.
///
/// Long operations follow one pattern: a foreground call registers a
/// tracking record and returns at once; a background task performs the
/// engine work and hands its outcome back through a `record_*` or
/// `finish_*` operation, which mutates only that task's own record. The
/// runner of a sync attempt must drive [`AppState::reset_sync_state`] (or
/// `sync_state.end_sync()`) on every exit path, success or failure.
#[derive(Debug)]
pub struct AppState {
    /// Zero-or-one loaded wallet; `None` means no wallet is loaded, and
    /// every wallet operation fails explicitly on it rather than panicking.
    pub wallet: Option<IkkiWallet>,
    /// Sync progress and cancellation flags.
    pub sync_state: SyncState,
    /// Tracker of in-flight send operations.
    pub pending_tx_state: PendingTxState,
    /// Swap and ephemeral-address store; `None` until the persistent store
    /// has been opened, and every store operation fails explicitly on it.
    pub swap_db: Option<SwapStore>,
}

impl AppState {
    /// Well-formed: the tracker and the store (when present) are.
    pub open spec fn wf(&self) -> bool {
        &&& self.pending_tx_state.wf()
        &&& self.swap_db matches Some(db) ==> db.wf()
    }

    /// A fresh context: no wallet, idle sync, no tracked transactions, and
    /// no store yet.
    pub fn new() -> (s: Self)
        ensures
            s.wf(),
            s.wallet is None,
            s.sync_state == (SyncState {
                is_syncing: false,
                current_block: 0,
                target_block: 0,
                is_first_sync: false,
                cancel_requested: false,
            }),
            s.pending_tx_state@ == Seq::<PendingTransaction>::empty(),
            s.pending_tx_state.issued() == 0,
            s.swap_db is None,
    {
        AppState {
            wallet: None,
            sync_state: SyncState::new(),
            pending_tx_state: PendingTxState::new(),
            swap_db: None,
        }
    }

    /// Install an empty swap store, to be hydrated by replaying the
    /// persisted rows through `save_swap` and `record_ephemeral_address`.
    pub fn init_swap_store(&mut self)
        ensures
            final(self).swap_db matches Some(db) && db.wf()
                && db.swap_records() == Seq::<SwapRecord>::empty()
                && db.ephemeral_rows() == Seq::<EphemeralAddress>::empty()
                && db.next_index() == 0,
            final(self).wallet == old(self).wallet,
            final(self).sync_state == old(self).sync_state,
            final(self).pending_tx_state == old(self).pending_tx_state,
    {
        self.swap_db = Some(SwapStore::new());
    }

    /// Install a loaded wallet, replacing any previous one. The handle cell
    /// has exactly this writer and [`AppState::reset_wallet`].
    pub fn load_wallet(&mut self, wallet: IkkiWallet)
        ensures
            final(self).wallet == Some(wallet),
            final(self).sync_state == old(self).sync_state,
            final(self).pending_tx_state == old(self).pending_tx_state,
            final(self).swap_db == old(self).swap_db,
    {
        self.wallet = Some(wallet);
    }

    /// Clear the wallet cell. The caller deletes the persisted wallet
    /// storage only after this returns, so a crash mid-deletion never
    /// leaves a live handle to storage that no longer exists.
    pub fn reset_wallet(&mut self)
        ensures
            final(self).wallet is None,
            final(self).sync_state == old(self).sync_state,
            final(self).pending_tx_state == old(self).pending_tx_state,
            final(self).swap_db == old(self).swap_db,
    {
        self.wallet = None;
    }

    /// Whether a wallet is loaded.
    pub fn wallet_loaded(&self) -> (r: bool)
        ensures
            r == (self.wallet is Some),
    {
        match &self.wallet {
            Some(_) => true,
            None => false,
        }
    }

    /// Gate for wallet operations: succeeds exactly when a wallet is
    /// loaded, and otherwise reports `WalletNotLoaded`.
    pub fn require_wallet(&self) -> (r: Result<(), SessionError>)
        ensures
            r is Ok <==> self.wallet is Some,
            r is Err ==> r == Err::<(), SessionError>(SessionError::WalletNotLoaded),
    {
        match &self.wallet {
            Some(_) => Ok(()),
            None => Err(SessionError::WalletNotLoaded),
        }
    }

    /// Enter the `Syncing` state, or refuse with `AlreadySyncing` while a
    /// sync is active, leaving the running session's state untouched. The
    /// caller spawns the sync task only on success.
    pub fn start_background_sync(&mut self, is_first_sync: bool) -> (r: Result<(), SessionError>)
        ensures
            old(self).sync_state.is_syncing ==> r == Err::<(), SessionError>(
                SessionError::AlreadySyncing,
            ) && *final(self) == *old(self),
            !old(self).sync_state.is_syncing ==> r == Ok::<(), SessionError>(())
                && final(self).sync_state == spec_start_sync(old(self).sync_state, is_first_sync),
            final(self).wallet == old(self).wallet,
            final(self).pending_tx_state == old(self).pending_tx_state,
            final(self).swap_db == old(self).swap_db,
    {
        self.sync_state.start_sync(is_first_sync)
    }

    /// Snapshot of the sync state with the progress percentage computed.
    pub fn get_sync_status(&self) -> (st: SyncStatus)
        ensures
            st.is_syncing == self.sync_state.is_syncing,
            st.is_first_sync == self.sync_state.is_first_sync,
            st.current_block == self.sync_state.current_block,
            st.target_block == self.sync_state.target_block,
            st.percentage == spec_percentage(
                self.sync_state.current_block,
                self.sync_state.target_block,
            ),
    {
        self.sync_state.get_sync_status()
    }

    /// Request cancellation of the in-flight sync: advisory, non-blocking,
    /// and always successful.
    pub fn cancel_sync(&mut self) -> (r: Result<(), SessionError>)
        ensures
            r == Ok::<(), SessionError>(()),
            final(self).sync_state == (SyncState {
                cancel_requested: true,
                ..old(self).sync_state
            }),
            final(self).wallet == old(self).wallet,
            final(self).pending_tx_state == old(self).pending_tx_state,
            final(self).swap_db == old(self).swap_db,
    {
        self.sync_state.request_cancel();
        Ok(())
    }

    /// Force the sync state back to idle. This runs at the end of every
    /// sync attempt, and doubles as the administrative escape hatch for
    /// recovering a stuck state; it is safe when no sync is active.
    pub fn reset_sync_state(&mut self) -> (r: Result<(), SessionError>)
        ensures
            r == Ok::<(), SessionError>(()),
            final(self).sync_state == spec_end_sync(old(self).sync_state),
            final(self).wallet == old(self).wallet,
            final(self).pending_tx_state == old(self).pending_tx_state,
            final(self).swap_db == old(self).swap_db,
    {
        self.sync_state.end_sync();
        Ok(())
    }

    /// Record the start of a sync run toward the given chain tip: progress
    /// is reset to block zero of that target, and the initial progress
    /// notification (always 0%) is built.
    pub fn begin_sync_run(&mut self, target_height: u64) -> (p: SyncProgress)
        ensures
            final(self).sync_state == (SyncState {
                current_block: 0,
                target_block: target_height,
                ..old(self).sync_state
            }),
            final(self).wallet == old(self).wallet,
            final(self).pending_tx_state == old(self).pending_tx_state,
            final(self).swap_db == old(self).swap_db,
            p.current_block == 0,
            p.target_block == target_height,
            p.percentage == 0,
            p.percentage == spec_percentage(0, target_height),
            p.is_first_sync == old(self).sync_state.is_first_sync,
            p.status@ == "Starting sync..."@,
    {
        self.sync_state.update_progress(0, target_height);
        SyncProgress {
            current_block: 0,
            target_block: target_height,
            percentage: 0,
            is_first_sync: self.sync_state.is_first_sync,
            status: String::from_str("Starting sync..."),
        }
    }

    /// Record the completion of a sync run at the given final height:
    /// progress is set to that height for both counters, and the final
    /// progress notification (100% whenever any block exists) is built.
    pub fn finish_sync_run(&mut self, final_height: u64) -> (p: SyncProgress)
        ensures
            final(self).sync_state == (SyncState {
                current_block: final_height,
                target_block: final_height,
                ..old(self).sync_state
            }),
            final(self).wallet == old(self).wallet,
            final(self).pending_tx_state == old(self).pending_tx_state,
            final(self).swap_db == old(self).swap_db,
            p.current_block == final_height,
            p.target_block == final_height,
            p.percentage == spec_percentage(final_height, final_height),
            final_height > 0 ==> p.percentage == 100,
            p.is_first_sync == old(self).sync_state.is_first_sync,
            p.status@ == "Sync complete"@,
    {
        proof {
            if final_height > 0 {
                lemma_div_multiples_vanish(100, final_height as int);
                assert(final_height as int * 100 == final_height as int * 100);
                assert((final_height as int * 100) / final_height as int == 100) by {
                    assert(final_height as int * 100 == 100 * final_height as int)
                        by (nonlinear_arith);
                }
            }
        }
        self.sync_state.update_progress(final_height, final_height);
        SyncProgress {
            current_block: final_height,
            target_block: final_height,
            percentage: crate::sync::percentage(final_height, final_height),
            is_first_sync: self.sync_state.is_first_sync,
            status: String::from_str("Sync complete"),
        }
    }

    /// Register a background send: a fresh tracking record in `Building`
    /// state is inserted and an equal snapshot returned at once, before any
    /// engine work happens. Exactly one background task per returned id
    /// then hands its outcome to [`AppState::record_send_outcome`].
    pub fn send_transaction_background(
        &mut self,
        to_address: String,
        amount: u64,
        memo: Option<String>,
        created_at: u64,
    ) -> (r: PendingTransaction)
        requires
            old(self).wf(),
            old(self).pending_tx_state.issued() < u64::MAX,
        ensures
            final(self).wf(),
            r.id == old(self).pending_tx_state.issued(),
            r.status is Building,
            r.txid is None,
            r.error is None,
            r.to_address == to_address,
            r.amount == amount,
            r.memo == memo,
            r.created_at == created_at,
            final(self).pending_tx_state@ == old(self).pending_tx_state@.push(r),
            final(self).pending_tx_state.issued() > r.id,
            final(self).wallet == old(self).wallet,
            final(self).sync_state == old(self).sync_state,
            final(self).swap_db == old(self).swap_db,
    {
        let id = self.pending_tx_state.watermark();
        let record = PendingTransaction {
            id,
            txid: None,
            to_address,
            amount,
            memo,
            status: PendingTxStatus::Building,
            error: None,
            created_at,
        };
        let snapshot = record.clone();
        proof {
            assert forall|i: int| 0 <= i < self.pending_tx_state@.len()
                implies self.pending_tx_state@[i].id != id by {
                assert(self.pending_tx_state@[i].id < self.pending_tx_state.issued());
            }
            assert(!contains_id(self.pending_tx_state@, id));
        }
        self.pending_tx_state.add(record);
        snapshot
    }

    /// Record the outcome of a background send: success becomes `Broadcast`
    /// with the transaction id, failure becomes `Failed` with the error
    /// text; only the task's own record changes, and a record already
    /// dismissed is a no-op.
    pub fn record_send_outcome(&mut self, id: u64, outcome: Result<String, String>)
        requires
            old(self).wf(),
        ensures
            final(self).wf(),
            outcome matches Ok(t) ==> final(self).pending_tx_state@ == spec_update_all(
                old(self).pending_tx_state@, id, PendingTxStatus::Broadcast, Some(t), None,
            ),
            outcome matches Err(e) ==> final(self).pending_tx_state@ == spec_update_all(
                old(self).pending_tx_state@, id, PendingTxStatus::Failed, None, Some(e),
            ),
            final(self).pending_tx_state.issued() == old(self).pending_tx_state.issued(),
            final(self).wallet == old(self).wallet,
            final(self).sync_state == old(self).sync_state,
            final(self).swap_db == old(self).swap_db,
    {
        match outcome {
            Ok(txid) => {
                self.pending_tx_state.update_status(id, PendingTxStatus::Broadcast, Some(txid), None);
            },
            Err(err) => {
                self.pending_tx_state.update_status(id, PendingTxStatus::Failed, None, Some(err));
            },
        }
    }

    /// Snapshots of all tracked pending transactions.
    pub fn get_pending_transactions(&self) -> (r: Vec<PendingTransaction>)
        ensures
            r@ == self.pending_tx_state@,
    {
        self.pending_tx_state.get_all()
    }

    /// Snapshot of one tracked pending transaction, if present.
    pub fn get_pending_transaction(&self, id: u64) -> (r: Option<PendingTransaction>)
        requires
            self.wf(),
        ensures
            r == spec_lookup(self.pending_tx_state@, id),
    {
        self.pending_tx_state.get(id)
    }

    /// Remove an acknowledged record; a missing id is a no-op.
    pub fn dismiss_pending_transaction(&mut self, id: u64) -> (r: Result<(), SessionError>)
        requires
            old(self).wf(),
        ensures
            final(self).wf(),
            r == Ok::<(), SessionError>(()),
            spec_removed(old(self).pending_tx_state@, final(self).pending_tx_state@, id),
            final(self).pending_tx_state.issued() == old(self).pending_tx_state.issued(),
            final(self).wallet == old(self).wallet,
            final(self).sync_state == old(self).sync_state,
            final(self).swap_db == old(self).swap_db,
    {
        self.pending_tx_state.remove(id);
        Ok(())
    }

    /// Upsert a swap record, keyed by its id; fails with `StoreUnavailable`
    /// (changing nothing) while no store is open.
    pub fn save_swap(&mut self, swap: SwapRecord) -> (r: Result<(), SessionError>)
        requires
            old(self).wf(),
        ensures
            final(self).wf(),
            old(self).swap_db is None ==> r == Err::<(), SessionError>(
                SessionError::StoreUnavailable,
            ) && *final(self) == *old(self),
            old(self).swap_db matches Some(db0) ==> (r == Ok::<(), SessionError>(())
                && (final(self).swap_db matches Some(db1)
                    && spec_upserted(db0.swap_records(), db1.swap_records(), swap)
                    && db1.ephemeral_rows() == db0.ephemeral_rows()
                    && db1.next_index() == db0.next_index())),
            final(self).wallet == old(self).wallet,
            final(self).sync_state == old(self).sync_state,
            final(self).pending_tx_state == old(self).pending_tx_state,
    {
        match self.swap_db.take() {
            Some(mut db) => {
                db.save_swap(swap);
                self.swap_db = Some(db);
                Ok(())
            },
            None => Err(SessionError::StoreUnavailable),
        }
    }

    /// Update a stored swap's status, keeping previously recorded
    /// correlation hashes when the call supplies none (coalesce-on-null);
    /// fails with `StoreUnavailable` (changing nothing) while no store is
    /// open. A missing id is a no-op, as in the underlying row update.
    pub fn update_swap_status(
        &mut self,
        swap_id: &String,
        status: String,
        intent_hash: Option<String>,
        txid: Option<String>,
    ) -> (r: Result<(), SessionError>)
        requires
            old(self).wf(),
        ensures
            final(self).wf(),
            old(self).swap_db is None ==> r == Err::<(), SessionError>(
                SessionError::StoreUnavailable,
            ) && *final(self) == *old(self),
            old(self).swap_db matches Some(db0) ==> (r == Ok::<(), SessionError>(())
                && (final(self).swap_db matches Some(db1)
                    && db1.swap_records() == spec_swaps_updated(
                        db0.swap_records(), swap_id@, status, intent_hash, txid,
                    )
                    && db1.ephemeral_rows() == db0.ephemeral_rows()
                    && db1.next_index() == db0.next_index())),
            final(self).wallet == old(self).wallet,
            final(self).sync_state == old(self).sync_state,
            final(self).pending_tx_state == old(self).pending_tx_state,
    {
        match self.swap_db.take() {
            Some(mut db) => {
                db.update_swap_status(swap_id, status, intent_hash, txid);
                self.swap_db = Some(db);
                Ok(())
            },
            None => Err(SessionError::StoreUnavailable),
        }
    }

    /// Snapshots of all stored swap records, newest-first; fails with
    /// `StoreUnavailable` while no store is open.
    pub fn get_swap_history(&self) -> (r: Result<Vec<SwapRecord>, SessionError>)
        requires
            self.wf(),
        ensures
            self.swap_db is None ==> r == Err::<Vec<SwapRecord>, SessionError>(
                SessionError::StoreUnavailable,
            ),
            self.swap_db matches Some(db) ==> (r matches Ok(v) && v@ == db.swap_records()
                && sorted_desc(v@)),
    {
        match &self.swap_db {
            Some(db) => Ok(db.get_swap_history()),
            None => Err(SessionError::StoreUnavailable),
        }
    }

    /// Snapshots of the stored swap records whose status is not terminal,
    /// newest-first; fails with `StoreUnavailable` while no store is open.
    pub fn get_active_swaps(&self) -> (r: Result<Vec<SwapRecord>, SessionError>)
        requires
            self.wf(),
        ensures
            self.swap_db is None ==> r == Err::<Vec<SwapRecord>, SessionError>(
                SessionError::StoreUnavailable,
            ),
            self.swap_db matches Some(db) ==> (r matches Ok(v)
                && v@ == spec_active(db.swap_records()) && sorted_desc(v@)),
    {
        match &self.swap_db {
            Some(db) => Ok(db.get_active_swaps()),
            None => Err(SessionError::StoreUnavailable),
        }
    }

    /// Atomically reserve the next ephemeral derivation index, before the
    /// engine derives the address for it. Allocation is funneled through
    /// this single serialization point, so no two calls ever receive the
    /// same index, whatever happens between reservation and recording.
    /// Requires an open store and a loaded wallet (the derivation that
    /// follows needs both).
    pub fn begin_ephemeral_allocation(&mut self) -> (r: Result<u32, SessionError>)
        requires
            old(self).wf(),
        ensures
            final(self).wf(),
            old(self).swap_db is None ==> r == Err::<u32, SessionError>(
                SessionError::StoreUnavailable,
            ) && *final(self) == *old(self),
            old(self).swap_db is Some && old(self).wallet is None ==> r == Err::<u32, SessionError>(
                SessionError::WalletNotLoaded,
            ) && *final(self) == *old(self),
            old(self).swap_db matches Some(db0) ==> (old(self).wallet is Some ==> (
                (db0.next_index() < u32::MAX ==> (r == Ok::<u32, SessionError>(db0.next_index())
                    && (final(self).swap_db matches Some(db1)
                        && db1.next_index() == db0.next_index() + 1
                        && db1.swap_records() == db0.swap_records()
                        && db1.ephemeral_rows() == db0.ephemeral_rows())))
                && (db0.next_index() == u32::MAX ==> r is Err && *final(self) == *old(self))
            )),
            final(self).wallet == old(self).wallet,
            final(self).sync_state == old(self).sync_state,
            final(self).pending_tx_state == old(self).pending_tx_state,
    {
        if self.wallet_loaded() {
            match self.swap_db.take() {
                Some(mut db) => {
                    if db.next_ephemeral_index() < u32::MAX {
                        let idx = db.allocate_ephemeral_index();
                        self.swap_db = Some(db);
                        Ok(idx)
                    } else {
                        self.swap_db = Some(db);
                        Err(SessionError::EngineFailure(
                            String::from_str("ephemeral index space exhausted"),
                        ))
                    }
                },
                None => Err(SessionError::StoreUnavailable),
            }
        } else {
            match &self.swap_db {
                Some(_) => Err(SessionError::WalletNotLoaded),
                None => Err(SessionError::StoreUnavailable),
            }
        }
    }

    /// Record a derived ephemeral address against its reserved index,
    /// completing an allocation; fails with `StoreUnavailable` (changing
    /// nothing) while no store is open.
    pub fn record_ephemeral_address(
        &mut self,
        address: String,
        index: u32,
        swap_id: Option<String>,
        created_at: i64,
    ) -> (r: Result<(), SessionError>)
        requires
            old(self).wf(),
            index < u32::MAX,
        ensures
            final(self).wf(),
            old(self).swap_db is None ==> r == Err::<(), SessionError>(
                SessionError::StoreUnavailable,
            ) && *final(self) == *old(self),
            old(self).swap_db matches Some(db0) ==> (r == Ok::<(), SessionError>(())
                && (final(self).swap_db matches Some(db1)
                    && spec_ephemeral_upserted(
                        db0.ephemeral_rows(), db1.ephemeral_rows(),
                        address@, index, swap_id, created_at,
                    )
                    && db1.swap_records() == db0.swap_records()
                    && db1.next_index()
                        == (if index >= db0.next_index() { index + 1 } else { db0.next_index() as int }))),
            final(self).wallet == old(self).wallet,
            final(self).sync_state == old(self).sync_state,
            final(self).pending_tx_state == old(self).pending_tx_state,
    {
        match self.swap_db.take() {
            Some(mut db) => {
                db.save_ephemeral_address(address, index, swap_id, created_at);
                self.swap_db = Some(db);
                Ok(())
            },
            None => Err(SessionError::StoreUnavailable),
        }
    }
}

} // verus!
