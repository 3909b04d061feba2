use vstd::prelude::*;
use crate::pending::clone_opt_string;

verus! {

/// Kind of a confirmed transaction as shown to the shell.
#[derive(Clone, Copy, Debug, PartialEq, Eq, Structural)]
pub enum TransactionType {
    Sent,
    Received,
    Shielding,
    Internal,
}

/// Confirmation status of a transaction as shown to the shell.
#[derive(Clone, Copy, Debug, PartialEq, Eq, Structural)]
pub enum TransactionStatus {
    Pending,
    Confirmed,
    Failed,
}

/// A transaction shaped for the shell's history view.
#[derive(Debug)]
pub struct Transaction {
    pub txid: String,
    pub tx_type: TransactionType,
    pub amount: i64,
    pub timestamp: u64,
    pub address: Option<String>,
    pub memo: Option<String>,
    pub status: TransactionStatus,
    pub confirmations: u32,
}

/// Result of a completed send.
#[derive(Debug)]
pub struct SendResult {
    pub txid: String,
    pub amount: u64,
    pub fee: u64,
}

/// A transaction record as the wallet engine reports it.
#[derive(Debug)]
pub struct TransactionRecord {
    pub txid: String,
    pub is_sent: bool,
    pub amount: i64,
    pub timestamp: u64,
    pub memo: Option<String>,
}

/// The shell-facing transaction a stored engine record maps to: sent or
/// received by direction, reported as confirmed with one confirmation, with
/// no counterparty address attached.
pub open spec fn tx_from_record(r: TransactionRecord) -> Transaction {
    Transaction {
        txid: r.txid,
        tx_type: if r.is_sent {
            TransactionType::Sent
        } else {
            TransactionType::Received
        },
        amount: r.amount,
        timestamp: r.timestamp,
        address: None,
        memo: r.memo,
        status: TransactionStatus::Confirmed,
        confirmations: 1,
    }
}

/// Shape the engine's recent-transaction records for the shell, one for
/// one, in order.
pub fn convert_transactions(records: &Vec<TransactionRecord>) -> (r: Vec<Transaction>)
    ensures
        r@.len() == records@.len(),
        forall|i: int| 0 <= i < r@.len() ==> r@[i] == tx_from_record(records@[i]),
{
    let mut r: Vec<Transaction> = Vec::new();
    let mut i: usize = 0;
    while i < records.len()
        invariant
            i <= records@.len(),
            r@.len() == i,
            forall|k: int| 0 <= k < i ==> r@[k] == tx_from_record(records@[k]),
        decreases records@.len() - i,
    {
        let rec = &records[i];
        let tx = Transaction {
            txid: rec.txid.clone(),
            tx_type: if rec.is_sent {
                TransactionType::Sent
            } else {
                TransactionType::Received
            },
            amount: rec.amount,
            timestamp: rec.timestamp,
            address: None,
            memo: clone_opt_string(&rec.memo),
            status: TransactionStatus::Confirmed,
            confirmations: 1,
        };
        r.push(tx);
        i = i + 1;
    }
    r
}

} // verus!
