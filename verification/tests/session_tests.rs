use ikki_session::errors::SessionError;
use ikki_session::pending::PendingTxStatus;
use ikki_session::session::AppState;
use ikki_session::swap::{SwapDirection, SwapRecord};
use ikki_session::wallet::IkkiWallet;

const VALID_MNEMONIC: &str = "abandon abandon abandon abandon abandon abandon abandon abandon \
     abandon abandon abandon abandon abandon abandon abandon abandon abandon abandon abandon \
     abandon abandon abandon abandon art";

fn swap(id: &str, status: &str, created_at: i64) -> SwapRecord {
    SwapRecord {
        id: id.to_string(),
        direction: SwapDirection::CrossPay,
        status: status.to_string(),
        from_asset: "ZEC".to_string(),
        from_amount: "1".to_string(),
        to_asset: "USDC".to_string(),
        to_amount: "40".to_string(),
        receiving_address: None,
        ephemeral_address: None,
        refund_address: None,
        recipient_address: None,
        quote_hash: None,
        intent_hash: None,
        zcash_txid: None,
        fulfillment_txid: None,
        created_at,
        expires_at: None,
        completed_at: None,
    }
}

#[test]
fn wallet_operations_require_a_loaded_wallet() {
    let mut st = AppState::new();
    assert_eq!(st.require_wallet(), Err(SessionError::WalletNotLoaded));
    let w = IkkiWallet::new(VALID_MNEMONIC, None).unwrap();
    st.load_wallet(w);
    assert_eq!(st.require_wallet(), Ok(()));
    st.reset_wallet();
    assert_eq!(st.require_wallet(), Err(SessionError::WalletNotLoaded));
}

#[test]
fn store_operations_fail_until_the_store_is_opened() {
    let mut st = AppState::new();
    assert_eq!(
        st.save_swap(swap("a", "pending", 1)),
        Err(SessionError::StoreUnavailable)
    );
    assert!(matches!(
        st.get_swap_history(),
        Err(SessionError::StoreUnavailable)
    ));
    assert!(matches!(
        st.get_active_swaps(),
        Err(SessionError::StoreUnavailable)
    ));
    assert_eq!(
        st.update_swap_status(&"a".to_string(), "x".to_string(), None, None),
        Err(SessionError::StoreUnavailable)
    );
    assert_eq!(
        st.begin_ephemeral_allocation(),
        Err(SessionError::StoreUnavailable)
    );
    st.init_swap_store();
    assert_eq!(st.save_swap(swap("a", "pending", 1)), Ok(()));
    assert_eq!(st.get_swap_history().unwrap().len(), 1);
}

#[test]
fn sync_scenario_first_sync_to_block_two_hundred() {
    let mut st = AppState::new();
    assert_eq!(st.start_background_sync(true), Ok(()));

    // The background task begins at block 0 toward the chain tip 200.
    let p0 = st.begin_sync_run(200);
    assert_eq!(p0.current_block, 0);
    assert_eq!(p0.target_block, 200);
    assert_eq!(p0.percentage, 0);
    assert!(p0.is_first_sync);
    assert_eq!(p0.status, "Starting sync...");

    // After the engine call the run finishes at the tip.
    let p1 = st.finish_sync_run(200);
    assert_eq!(p1.current_block, 200);
    assert_eq!(p1.target_block, 200);
    assert_eq!(p1.percentage, 100);
    assert_eq!(p1.status, "Sync complete");

    // The task ends the sync on its way out, whatever the outcome.
    assert_eq!(st.reset_sync_state(), Ok(()));
    let status = st.get_sync_status();
    assert!(!status.is_syncing);
    assert_eq!(status.current_block, 200);
    assert_eq!(status.target_block, 200);
    assert_eq!(status.percentage, 100);
}

#[test]
fn a_second_sync_is_refused_while_one_runs() {
    let mut st = AppState::new();
    assert_eq!(st.start_background_sync(false), Ok(()));
    assert_eq!(
        st.start_background_sync(true),
        Err(SessionError::AlreadySyncing)
    );
    let status = st.get_sync_status();
    assert!(status.is_syncing);
    assert!(!status.is_first_sync);
}

#[test]
fn send_scenario_broadcast() {
    let mut st = AppState::new();
    let pending = st.send_transaction_background("zs1dest".to_string(), 5000, None, 1_700_000_000);
    // The snapshot comes back immediately, in Building state.
    assert_eq!(pending.status, PendingTxStatus::Building);
    assert!(pending.txid.is_none());
    assert!(pending.error.is_none());
    assert_eq!(pending.amount, 5000);

    // The background task reports success.
    st.record_send_outcome(pending.id, Ok("txidabc".to_string()));
    let got = st.get_pending_transaction(pending.id).unwrap();
    assert_eq!(got.status, PendingTxStatus::Broadcast);
    assert_eq!(got.txid.as_deref(), Some("txidabc"));

    // The record never reverts to Building.
    st.record_send_outcome(pending.id, Err("late failure".to_string()));
    let still = st.get_pending_transaction(pending.id).unwrap();
    assert_eq!(still.status, PendingTxStatus::Broadcast);
    assert_eq!(still.txid.as_deref(), Some("txidabc"));

    // The caller acknowledges and dismisses it.
    assert_eq!(st.dismiss_pending_transaction(pending.id), Ok(()));
    assert!(st.get_pending_transaction(pending.id).is_none());
}

#[test]
fn send_scenario_failure() {
    let mut st = AppState::new();
    let pending = st.send_transaction_background(
        "zs1dest".to_string(),
        77,
        Some("memo".to_string()),
        1_700_000_000,
    );
    st.record_send_outcome(pending.id, Err("Wallet not initialized".to_string()));
    let got = st.get_pending_transaction(pending.id).unwrap();
    assert_eq!(got.status, PendingTxStatus::Failed);
    assert_eq!(got.error.as_deref(), Some("Wallet not initialized"));
    assert!(got.txid.is_none());
}

#[test]
fn tracking_ids_are_fresh_per_registration() {
    let mut st = AppState::new();
    let a = st.send_transaction_background("zs1a".to_string(), 1, None, 0);
    let b = st.send_transaction_background("zs1b".to_string(), 2, None, 0);
    let c = st.send_transaction_background("zs1c".to_string(), 3, None, 0);
    assert_ne!(a.id, b.id);
    assert_ne!(b.id, c.id);
    assert_ne!(a.id, c.id);
    assert_eq!(st.get_pending_transactions().len(), 3);
}

#[test]
fn swap_update_preserves_intent_hash_on_null() {
    let mut st = AppState::new();
    st.init_swap_store();
    let mut r = swap("s1", "pending", 10);
    r.intent_hash = Some("h1".to_string());
    assert_eq!(st.save_swap(r), Ok(()));
    assert_eq!(
        st.update_swap_status(&"s1".to_string(), "fulfilling".to_string(), None, None),
        Ok(())
    );
    let h = st.get_swap_history().unwrap();
    assert_eq!(h[0].status, "fulfilling");
    assert_eq!(h[0].intent_hash.as_deref(), Some("h1"));
}

#[test]
fn active_and_history_views_through_the_session() {
    let mut st = AppState::new();
    st.init_swap_store();
    st.save_swap(swap("done", "completed", 30)).unwrap();
    st.save_swap(swap("open", "pending", 20)).unwrap();
    st.save_swap(swap("gone", "refunded", 10)).unwrap();
    let hist = st.get_swap_history().unwrap();
    let hist_ids: Vec<&str> = hist.iter().map(|r| r.id.as_str()).collect();
    assert_eq!(hist_ids, vec!["done", "open", "gone"]);
    let active = st.get_active_swaps().unwrap();
    let active_ids: Vec<&str> = active.iter().map(|r| r.id.as_str()).collect();
    assert_eq!(active_ids, vec!["open"]);
}

#[test]
fn ephemeral_allocation_requires_wallet_and_store() {
    let mut st = AppState::new();
    st.init_swap_store();
    assert_eq!(
        st.begin_ephemeral_allocation(),
        Err(SessionError::WalletNotLoaded)
    );
    st.load_wallet(IkkiWallet::new(VALID_MNEMONIC, None).unwrap());
    let i1 = st.begin_ephemeral_allocation().unwrap();
    let i2 = st.begin_ephemeral_allocation().unwrap();
    assert_eq!((i1, i2), (0, 1));
    assert_eq!(
        st.record_ephemeral_address("t1qfirst".to_string(), i1, None, 100),
        Ok(())
    );
    assert_eq!(
        st.record_ephemeral_address("t1qsecond".to_string(), i2, Some("s1".to_string()), 101),
        Ok(())
    );
    // A later allocation continues past the recorded rows.
    let i3 = st.begin_ephemeral_allocation().unwrap();
    assert_eq!(i3, 2);
}

#[test]
fn cancel_sync_is_advisory_and_always_succeeds() {
    let mut st = AppState::new();
    assert_eq!(st.cancel_sync(), Ok(()));
    assert_eq!(st.start_background_sync(false), Ok(()));
    assert_eq!(st.cancel_sync(), Ok(()));
    assert!(st.sync_state.is_cancelled());
    assert!(st.get_sync_status().is_syncing);
}
