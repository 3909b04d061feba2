use vstd::prelude::*;
use vstd::string::StringExecFns;
use crate::pending::clone_opt_string;

verus! {

/// Direction of a swap: bringing external value into this wallet's
/// currency (`Inbound`), or paying an external asset out of it (`CrossPay`).
#[derive(Clone, Copy, Debug, PartialEq, Eq, Structural)]
pub enum SwapDirection {
    Inbound,
    CrossPay,
}

/// A persisted swap lifecycle record, keyed by `id`. Created once at quote
/// time, updated in place (status and correlation fields only) as external
/// settlement events arrive, never deleted by this core.
#[derive(Debug)]
pub struct SwapRecord {
    pub id: String,
    pub direction: SwapDirection,
    /// Open string status; `completed`, `failed` and `refunded` are treated
    /// as terminal by the queries.
    pub status: String,
    pub from_asset: String,
    pub from_amount: String,
    pub to_asset: String,
    pub to_amount: String,
    pub receiving_address: Option<String>,
    pub ephemeral_address: Option<String>,
    pub refund_address: Option<String>,
    pub recipient_address: Option<String>,
    pub quote_hash: Option<String>,
    pub intent_hash: Option<String>,
    pub zcash_txid: Option<String>,
    pub fulfillment_txid: Option<String>,
    pub created_at: i64,
    pub expires_at: Option<i64>,
    pub completed_at: Option<i64>,
}

impl Clone for SwapRecord {
    /// An exact copy: callers get snapshots of stored records.
    fn clone(&self) -> (r: Self)
        ensures
            r == *self,
    {
        SwapRecord {
            id: self.id.clone(),
            direction: self.direction,
            status: self.status.clone(),
            from_asset: self.from_asset.clone(),
            from_amount: self.from_amount.clone(),
            to_asset: self.to_asset.clone(),
            to_amount: self.to_amount.clone(),
            receiving_address: clone_opt_string(&self.receiving_address),
            ephemeral_address: clone_opt_string(&self.ephemeral_address),
            refund_address: clone_opt_string(&self.refund_address),
            recipient_address: clone_opt_string(&self.recipient_address),
            quote_hash: clone_opt_string(&self.quote_hash),
            intent_hash: clone_opt_string(&self.intent_hash),
            zcash_txid: clone_opt_string(&self.zcash_txid),
            fulfillment_txid: clone_opt_string(&self.fulfillment_txid),
            created_at: self.created_at,
            expires_at: self.expires_at,
            completed_at: self.completed_at,
        }
    }
}

/// Address visibility mode of a swap receiving address.
#[derive(Clone, Copy, Debug, PartialEq, Eq, Structural)]
pub enum AddressType {
    Shielded,
    Transparent,
}

/// A receiving address handed out for a swap, with the derivation index it
/// came from.
#[derive(Debug)]
pub struct SwapAddress {
    pub address: String,
    pub address_type: AddressType,
    pub index: u32,
}

/// A transaction prepared for a CrossPay swap, awaiting confirmation.
#[derive(Debug)]
pub struct PreparedTransaction {
    pub id: String,
    pub from_address: String,
    pub to_address: String,
    pub amount_zatoshi: u64,
    pub fee_zatoshi: u64,
    pub expires_at: i64,
}

/// A single-use transparent receiving address derived at a dedicated index.
/// Indices are never reused, even when the associated swap fails.
#[derive(Debug)]
pub struct EphemeralAddress {
    pub address: String,
    pub derivation_index: u32,
    pub swap_id: Option<String>,
    pub created_at: i64,
    pub used_at: Option<i64>,
}

/// The statuses treated as terminal by the swap queries.
pub open spec fn spec_is_terminal_status(s: Seq<char>) -> bool {
    s == "completed"@ || s == "failed"@ || s == "refunded"@
}

/// Whether a status string is one of the terminal statuses
/// `completed`, `failed`, `refunded`.
pub fn is_terminal_status(s: &String) -> (r: bool)
    ensures
        r == spec_is_terminal_status(s@),
{
    let completed = String::from_str("completed");
    let failed = String::from_str("failed");
    let refunded = String::from_str("refunded");
    *s == completed || *s == failed || *s == refunded
}

} // verus!
