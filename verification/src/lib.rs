//! A staking ledger core: one pool per deployment, one record per
//! participant, and a flat per-block reward that accrues over elapsed
//! block height.
//!
//! The four operations — `initialize`, `stake`, `unstake` and
//! `claim_reward` — validate their preconditions, update the records and
//! describe the token movements they need as [`custody::CustodyAction`]
//! values. The hosting ledger (signature checks, account allocation and
//! the token custody service itself) stays outside this crate: a host
//! applies the returned actions atomically and discards the record
//! update if any of them is refused.

pub mod custody;
pub mod laws;
pub mod ops;
pub mod state;
