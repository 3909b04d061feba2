//! Session and background-task coordination core of a Zcash wallet shell.
//!
//! This crate owns the in-memory wallet handle, the sync progress and
//! cancellation flags, the pending-transaction tracker, and the swap-record
//! and ephemeral-address store. Every operation is specified by `requires` /
//! `ensures` contracts and verified with Verus. The wallet engine itself
//! (key derivation, note scanning, transaction building) and all disk and
//! network I/O live outside this crate; callers hand their results in as
//! plain values and the coordinator decides what to record and return.

pub mod address;
pub mod errors;
pub mod pending;
pub mod session;
pub mod wallet;
pub mod swap;
pub mod swap_store;
pub mod sync;
pub mod transactions;
