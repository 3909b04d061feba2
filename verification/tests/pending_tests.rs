use ikki_session::pending::{PendingTransaction, PendingTxState, PendingTxStatus};

fn building(id: u64, to: &str, amount: u64) -> PendingTransaction {
    PendingTransaction {
        id,
        txid: None,
        to_address: to.to_string(),
        amount,
        memo: None,
        status: PendingTxStatus::Building,
        error: None,
        created_at: 1_700_000_000,
    }
}

#[test]
fn add_get_and_list() {
    let mut t = PendingTxState::new();
    t.add(building(0, "zs1recipient", 5000));
    t.add(building(1, "zs1other", 100));
    let all = t.get_all();
    assert_eq!(all.len(), 2);
    let got = t.get(0).unwrap();
    assert_eq!(got.to_address, "zs1recipient");
    assert_eq!(got.amount, 5000);
    assert_eq!(got.status, PendingTxStatus::Building);
    assert!(t.get(7).is_none());
}

#[test]
fn add_replaces_a_record_with_the_same_id() {
    let mut t = PendingTxState::new();
    t.add(building(0, "zs1recipient", 5000));
    t.add(building(0, "zs1replacement", 42));
    assert_eq!(t.get_all().len(), 1);
    assert_eq!(t.get(0).unwrap().to_address, "zs1replacement");
}

#[test]
fn update_to_broadcast_sets_txid() {
    let mut t = PendingTxState::new();
    t.add(building(0, "zs1recipient", 5000));
    t.update_status(0, PendingTxStatus::Broadcast, Some("txid123".to_string()), None);
    let got = t.get(0).unwrap();
    assert_eq!(got.status, PendingTxStatus::Broadcast);
    assert_eq!(got.txid.as_deref(), Some("txid123"));
    assert!(got.error.is_none());
}

#[test]
fn update_of_a_missing_id_is_a_no_op() {
    let mut t = PendingTxState::new();
    t.add(building(0, "zs1recipient", 5000));
    t.update_status(9, PendingTxStatus::Failed, None, Some("boom".to_string()));
    assert_eq!(t.get(0).unwrap().status, PendingTxStatus::Building);
    assert_eq!(t.get_all().len(), 1);
}

#[test]
fn status_never_regresses() {
    let mut t = PendingTxState::new();
    t.add(building(0, "zs1recipient", 5000));
    t.update_status(0, PendingTxStatus::Broadcasting, None, None);
    assert_eq!(t.get(0).unwrap().status, PendingTxStatus::Broadcasting);
    // An attempt to go back to Building is ignored.
    t.update_status(0, PendingTxStatus::Building, None, None);
    assert_eq!(t.get(0).unwrap().status, PendingTxStatus::Broadcasting);
}

#[test]
fn terminal_records_are_frozen() {
    let mut t = PendingTxState::new();
    t.add(building(0, "zs1recipient", 5000));
    t.update_status(0, PendingTxStatus::Broadcast, Some("txid123".to_string()), None);
    t.update_status(0, PendingTxStatus::Failed, None, Some("late error".to_string()));
    let got = t.get(0).unwrap();
    assert_eq!(got.status, PendingTxStatus::Broadcast);
    assert_eq!(got.txid.as_deref(), Some("txid123"));
    assert!(got.error.is_none());
}

#[test]
fn a_recorded_txid_is_never_cleared() {
    let mut t = PendingTxState::new();
    t.add(building(0, "zs1recipient", 5000));
    t.update_status(0, PendingTxStatus::Broadcasting, Some("txearly".to_string()), None);
    t.update_status(0, PendingTxStatus::Broadcasting, None, None);
    assert_eq!(t.get(0).unwrap().txid.as_deref(), Some("txearly"));
}

#[test]
fn remove_deletes_only_the_acknowledged_record() {
    let mut t = PendingTxState::new();
    t.add(building(0, "zs1a", 1));
    t.add(building(1, "zs1b", 2));
    t.remove(0);
    assert!(t.get(0).is_none());
    assert_eq!(t.get(1).unwrap().to_address, "zs1b");
    assert_eq!(t.get_all().len(), 1);
    // Removing a missing id is a no-op.
    t.remove(0);
    assert_eq!(t.get_all().len(), 1);
}
