use ikki_session::errors::SessionError;
use ikki_session::address::{
    decimal_string, generate_ephemeral_transparent_address, get_shielded_receiving_address,
};
use ikki_session::swap::AddressType;
use ikki_session::transactions::{
    convert_transactions, TransactionRecord, TransactionStatus, TransactionType,
};
use ikki_session::wallet::{balance_info_from_breakdown, generate_seed, IkkiWallet};

// The 24-word BIP-39 test vector whose entropy is all zero bits.
const VALID_MNEMONIC: &str = "abandon abandon abandon abandon abandon abandon abandon abandon \
     abandon abandon abandon abandon abandon abandon abandon abandon abandon abandon abandon \
     abandon abandon abandon abandon art";

#[test]
fn wallet_new_accepts_a_valid_mnemonic() {
    let w = IkkiWallet::new(VALID_MNEMONIC, Some(2_400_000)).unwrap();
    assert_eq!(w.birthday_height, Some(2_400_000));
}

#[test]
fn wallet_new_rejects_an_invalid_mnemonic() {
    let r = IkkiWallet::new("definitely not a mnemonic", None);
    assert_eq!(
        r,
        Err(SessionError::EngineFailure("invalid seed phrase".to_string()))
    );
    // A wrong checksum is rejected too, even with all words on the list.
    let r2 = IkkiWallet::new(
        "abandon abandon abandon abandon abandon abandon abandon abandon abandon abandon \
         abandon abandon abandon abandon abandon abandon abandon abandon abandon abandon \
         abandon abandon abandon abandon",
        None,
    );
    assert!(r2.is_err());
}

#[test]
fn generated_seeds_load_as_wallets() {
    let seed = generate_seed();
    assert_eq!(seed.split_whitespace().count(), 24);
    assert!(IkkiWallet::new(&seed, None).is_ok());
}

#[test]
fn balance_rollup_is_exact() {
    let b = balance_info_from_breakdown(300, 200, 50).unwrap();
    assert_eq!(b.total, 550);
    assert_eq!(b.shielded, 500);
    assert_eq!(b.transparent, 50);
}

#[test]
fn balance_rollup_fails_explicitly_on_overflow() {
    assert!(balance_info_from_breakdown(u64::MAX, 1, 0).is_none());
    assert!(balance_info_from_breakdown(u64::MAX - 1, 1, 1).is_none());
    assert!(balance_info_from_breakdown(u64::MAX - 1, 1, 0).is_some());
}

#[test]
fn decimal_strings_are_exact() {
    assert_eq!(decimal_string(0), "0");
    assert_eq!(decimal_string(7), "7");
    assert_eq!(decimal_string(12345), "12345");
    assert_eq!(decimal_string(u32::MAX - 1), "4294967294");
}

#[test]
fn ephemeral_transparent_address_labels_carry_the_index() {
    let mut next: u32 = 0;
    let a0 = generate_ephemeral_transparent_address(&mut next);
    let a1 = generate_ephemeral_transparent_address(&mut next);
    assert_eq!(a0.address, "t_ephemeral_0");
    assert_eq!(a0.index, 0);
    assert!(matches!(a0.address_type, AddressType::Transparent));
    assert_eq!(a1.address, "t_ephemeral_1");
    assert_eq!(a1.index, 1);
    assert_eq!(next, 2);
}

#[test]
fn shielded_receiving_address_placeholder() {
    let a = get_shielded_receiving_address();
    assert_eq!(a.address, "shielded_placeholder");
    assert!(matches!(a.address_type, AddressType::Shielded));
    assert_eq!(a.index, 0);
}

#[test]
fn engine_records_are_shaped_one_for_one() {
    let records = vec![
        TransactionRecord {
            txid: "t1".to_string(),
            is_sent: true,
            amount: -5000,
            timestamp: 1_700_000_000,
            memo: Some("hello".to_string()),
        },
        TransactionRecord {
            txid: "t2".to_string(),
            is_sent: false,
            amount: 800,
            timestamp: 1_700_000_100,
            memo: None,
        },
    ];
    let txs = convert_transactions(&records);
    assert_eq!(txs.len(), 2);
    assert_eq!(txs[0].txid, "t1");
    assert!(matches!(txs[0].tx_type, TransactionType::Sent));
    assert_eq!(txs[0].amount, -5000);
    assert_eq!(txs[0].memo.as_deref(), Some("hello"));
    assert!(matches!(txs[0].status, TransactionStatus::Confirmed));
    assert_eq!(txs[0].confirmations, 1);
    assert!(txs[0].address.is_none());
    assert!(matches!(txs[1].tx_type, TransactionType::Received));
}
