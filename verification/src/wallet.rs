use vstd::prelude::*;
use vstd::string::StringExecFns;
use crate::errors::SessionError;

verus! {

/// Balance breakdown in zatoshis, as reported to the shell.
#[derive(Clone, Copy, Debug, PartialEq, Eq, Structural)]
pub struct BalanceInfo {
    pub total: u64,
    pub shielded: u64,
    pub transparent: u64,
}

/// Wallet information returned to the shell after a wallet is loaded.
#[derive(Debug)]
pub struct WalletInfo {
    pub address: String,
    pub balance: BalanceInfo,
    pub block_height: u64,
}

/// Result of a completed chain sync.
#[derive(Clone, Copy, Debug, PartialEq, Eq, Structural)]
pub struct SyncResult {
    pub block_height: u64,
    pub balance: BalanceInfo,
}

/// Whether a phrase is a valid BIP-39 English mnemonic. Validity depends on
/// the phrase alone (NFKD normalization, the English word list, and the
/// checksum), so the outcome of the outside parser is given this name.
pub uninterp spec fn valid_mnemonic(s: Seq<char>) -> bool;

/// Relies on bip0039's `Mnemonic::<English>::from_phrase`: it accepts a
/// phrase exactly when normalization, word lookup and the checksum all
/// succeed, a function of the phrase alone, here named `valid_mnemonic`.
#[verifier::external_body]
fn check_mnemonic(s: &str) -> (r: bool)
    ensures
        r == valid_mnemonic(s@),
{
    bip0039::Mnemonic::<bip0039::English>::from_phrase(s).is_ok()
}

/// Relies on bip0039's `Mnemonic::<English>::generate`: a fresh 24-word
/// English mnemonic from random entropy. The phrase is random, so nothing
/// is claimed of its content beyond what holds of every outcome: a phrase
/// encoded from entropy always parses back as a valid mnemonic.
#[verifier::external_body]
pub fn generate_seed() -> (r: String)
    ensures
        valid_mnemonic(r@),
{
    bip0039::Mnemonic::<bip0039::English>::generate(bip0039::Count::Words24).phrase().to_owned()
}

/// In-memory descriptor of a loaded wallet. The cryptographic engine behind
/// it (key derivation, note scanning, transaction building) is an external
/// service; this handle holds the plain values the coordinator reads.
#[derive(Clone, Copy, Debug, PartialEq, Eq, Structural)]
pub struct IkkiWallet {
    /// Birthday height the wallet was created or restored with.
    pub birthday_height: Option<u32>,
}

impl IkkiWallet {
    /// Validate the seed phrase and construct the wallet handle. Succeeds
    /// exactly on valid BIP-39 English mnemonics; an invalid phrase is
    /// reported as an engine failure, never a panic.
    pub fn new(seed_phrase: &str, birthday_height: Option<u32>) -> (r: Result<IkkiWallet, SessionError>)
        ensures
            r is Ok <==> valid_mnemonic(seed_phrase@),
            r matches Ok(w) ==> w.birthday_height == birthday_height,
            r matches Err(e) ==> e matches SessionError::EngineFailure(m)
                && m@ == "invalid seed phrase"@,
    {
        if check_mnemonic(seed_phrase) {
            Ok(IkkiWallet { birthday_height })
        } else {
            Err(SessionError::EngineFailure(String::from_str("invalid seed phrase")))
        }
    }
}

/// Shape the engine's balance breakdown (sapling-like and orchard-like
/// shielded pools plus the transparent pool) into the rollup reported to
/// callers. `None` exactly when the totals do not fit in 64 bits.
pub fn balance_info_from_breakdown(sapling: u64, orchard: u64, transparent: u64) -> (r: Option<
    BalanceInfo,
>)
    ensures
        r is Some <==> sapling + orchard + transparent <= u64::MAX,
        r matches Some(b) ==> {
            &&& b.total == sapling + orchard + transparent
            &&& b.shielded == sapling + orchard
            &&& b.transparent == transparent
        },
{
    match sapling.checked_add(orchard) {
        Some(shielded) => match shielded.checked_add(transparent) {
            Some(total) => Some(BalanceInfo { total, shielded, transparent }),
            None => None,
        },
        None => None,
    }
}

} // verus!
