use ikki_session::swap::{is_terminal_status, SwapDirection, SwapRecord};
use ikki_session::swap_store::SwapStore;

fn record(id: &str, status: &str, created_at: i64) -> SwapRecord {
    SwapRecord {
        id: id.to_string(),
        direction: SwapDirection::Inbound,
        status: status.to_string(),
        from_asset: "BTC".to_string(),
        from_amount: "0.01".to_string(),
        to_asset: "ZEC".to_string(),
        to_amount: "7.5".to_string(),
        receiving_address: None,
        ephemeral_address: None,
        refund_address: None,
        recipient_address: None,
        quote_hash: None,
        intent_hash: None,
        zcash_txid: None,
        fulfillment_txid: None,
        created_at,
        expires_at: None,
        completed_at: None,
    }
}

#[test]
fn terminal_statuses_are_exactly_completed_failed_refunded() {
    assert!(is_terminal_status(&"completed".to_string()));
    assert!(is_terminal_status(&"failed".to_string()));
    assert!(is_terminal_status(&"refunded".to_string()));
    assert!(!is_terminal_status(&"pending".to_string()));
    assert!(!is_terminal_status(&"depositing".to_string()));
    assert!(!is_terminal_status(&"".to_string()));
    assert!(!is_terminal_status(&"Completed".to_string()));
}

#[test]
fn history_is_newest_first() {
    let mut db = SwapStore::new();
    db.save_swap(record("a", "pending", 100));
    db.save_swap(record("b", "pending", 300));
    db.save_swap(record("c", "pending", 200));
    let h = db.get_swap_history();
    let ids: Vec<&str> = h.iter().map(|r| r.id.as_str()).collect();
    assert_eq!(ids, vec!["b", "c", "a"]);
}

#[test]
fn save_swap_is_an_upsert_keyed_by_id() {
    let mut db = SwapStore::new();
    db.save_swap(record("a", "pending", 100));
    db.save_swap(record("a", "depositing", 100));
    let h = db.get_swap_history();
    assert_eq!(h.len(), 1);
    assert_eq!(h[0].status, "depositing");
}

#[test]
fn active_excludes_and_history_includes_terminal_records() {
    let mut db = SwapStore::new();
    db.save_swap(record("done", "completed", 400));
    db.save_swap(record("lost", "failed", 300));
    db.save_swap(record("back", "refunded", 250));
    db.save_swap(record("open1", "pending", 350));
    db.save_swap(record("open2", "depositing", 100));

    let h = db.get_swap_history();
    let hist_ids: Vec<&str> = h.iter().map(|r| r.id.as_str()).collect();
    assert_eq!(hist_ids, vec!["done", "open1", "lost", "back", "open2"]);

    let a = db.get_active_swaps();
    let active_ids: Vec<&str> = a.iter().map(|r| r.id.as_str()).collect();
    assert_eq!(active_ids, vec!["open1", "open2"]);
}

#[test]
fn update_preserves_hashes_when_none_is_supplied() {
    let mut db = SwapStore::new();
    let mut r = record("a", "pending", 100);
    r.intent_hash = Some("h1".to_string());
    r.zcash_txid = Some("tx1".to_string());
    db.save_swap(r);

    db.update_swap_status(&"a".to_string(), "fulfilling".to_string(), None, None);
    let h = db.get_swap_history();
    assert_eq!(h[0].status, "fulfilling");
    assert_eq!(h[0].intent_hash.as_deref(), Some("h1"));
    assert_eq!(h[0].zcash_txid.as_deref(), Some("tx1"));
}

#[test]
fn update_overwrites_hashes_when_supplied() {
    let mut db = SwapStore::new();
    db.save_swap(record("a", "pending", 100));
    db.update_swap_status(
        &"a".to_string(),
        "fulfilling".to_string(),
        Some("h2".to_string()),
        Some("tx2".to_string()),
    );
    let h = db.get_swap_history();
    assert_eq!(h[0].intent_hash.as_deref(), Some("h2"));
    assert_eq!(h[0].zcash_txid.as_deref(), Some("tx2"));
}

#[test]
fn update_of_a_missing_id_changes_nothing() {
    let mut db = SwapStore::new();
    db.save_swap(record("a", "pending", 100));
    db.update_swap_status(&"zzz".to_string(), "completed".to_string(), None, None);
    let h = db.get_swap_history();
    assert_eq!(h.len(), 1);
    assert_eq!(h[0].status, "pending");
}

#[test]
fn allocations_yield_distinct_increasing_indices_from_the_high_water_mark() {
    let mut db = SwapStore::new();
    db.save_ephemeral_address("t1qaddr0".to_string(), 0, None, 100);
    db.save_ephemeral_address("t1qaddr1".to_string(), 1, None, 101);
    // High-water mark after hydration: 2.
    assert_eq!(db.next_ephemeral_index(), 2);
    let i1 = db.allocate_ephemeral_index();
    let i2 = db.allocate_ephemeral_index();
    let i3 = db.allocate_ephemeral_index();
    assert_eq!((i1, i2, i3), (2, 3, 4));
    assert!(i1 < i2 && i2 < i3);
    assert_eq!(db.next_ephemeral_index(), 5);
}

#[test]
fn indices_are_not_reused_after_a_failed_swap() {
    let mut db = SwapStore::new();
    let i1 = db.allocate_ephemeral_index();
    db.save_ephemeral_address("t1qfirst".to_string(), i1, Some("swap1".to_string()), 100);
    db.save_swap(record("swap1", "failed", 100));
    let i2 = db.allocate_ephemeral_index();
    assert_ne!(i1, i2);
    assert_eq!(i2, i1 + 1);
}
