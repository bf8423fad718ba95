//! The persisted records and the accounts each operation touches.

use vstd::prelude::*;

verus! {

/// A 32-byte account address on the hosting ledger. The core never looks
/// inside an address; it only copies addresses into the custody actions
/// it emits.
#[derive(Clone, Copy, Debug, PartialEq, Eq)]
pub struct AccountId {
    pub bytes: [u8; 32],
}

impl AccountId {
    pub fn new(bytes: [u8; 32]) -> (r: AccountId)
        ensures
            r.bytes == bytes,
    {
        AccountId { bytes }
    }
}

/// Pool configuration, created once per deployment and never mutated.
#[derive(Clone, Copy, Debug, PartialEq, Eq)]
pub struct PoolInfo {
    /// The pool authority. Set at creation.
    pub admin: AccountId,
    /// First block height of the staking period.
    pub start_slot: u64,
    /// Last block height of the staking period.
    pub end_slot: u64,
    /// The staking/reward token.
    pub token: AccountId,
}

impl PoolInfo {
    /// Serialized size of the record body in bytes.
    pub const LEN: usize = 32 + 8 + 8 + 32;
}

/// One participant's position: staked balance and reward bookkeeping.
#[derive(Clone, Copy, Debug, PartialEq, Eq)]
pub struct UserInfo {
    /// Currently staked balance; zero means "not currently staked".
    pub amount: u64,
    /// Reward already paid out since the last deposit, kept as an offset
    /// so that accrued reward is never paid twice.
    pub debt_reward: u64,
    /// Block height at which the current stake was recorded.
    pub deposit_slot: u64,
}

impl UserInfo {
    /// Serialized size of the record body in bytes.
    pub const LEN: usize = 8 + 8 + 8;

    /// The empty, reusable state that `unstake` leaves behind.
    pub open spec fn is_cleared(self) -> bool {
        self.amount == 0 && self.debt_reward == 0 && self.deposit_slot == 0
    }
}

/// The accounts `initialize` touches.
#[derive(Clone, Copy, Debug, PartialEq, Eq)]
pub struct Initialize {
    /// The pool authority; must have signed the transaction.
    pub admin: AccountId,
    /// The staking/reward token the pool will use.
    pub staking_token: AccountId,
}

/// The accounts `stake` touches.
#[derive(Clone, Copy, Debug, PartialEq, Eq)]
pub struct Stake {
    /// The participant; must have signed the transaction.
    pub user: AccountId,
    /// The pool authority.
    pub admin: AccountId,
    /// The participant's token wallet.
    pub user_staking_wallet: AccountId,
    /// The pool's custody wallet, escrow for staked funds.
    pub admin_staking_wallet: AccountId,
    /// The staking/reward token.
    pub staking_token: AccountId,
}

/// The accounts `unstake` touches.
#[derive(Clone, Copy, Debug, PartialEq, Eq)]
pub struct Unstake {
    /// The participant.
    pub user: AccountId,
    /// The pool authority, which authorizes the custody transfer back.
    pub admin: AccountId,
    /// The participant's token wallet.
    pub user_staking_wallet: AccountId,
    /// The pool's custody wallet.
    pub admin_staking_wallet: AccountId,
    /// The staking/reward token.
    pub staking_token: AccountId,
}

/// The accounts `claim_reward` touches.
#[derive(Clone, Copy, Debug, PartialEq, Eq)]
pub struct Claimreward {
    /// The participant.
    pub user: AccountId,
    /// The pool authority, which authorizes the reward mint.
    pub admin: AccountId,
    /// The participant's token wallet.
    pub user_staking_wallet: AccountId,
    /// The pool's custody wallet.
    pub admin_staking_wallet: AccountId,
    /// The staking/reward token.
    pub staking_token: AccountId,
}

/// Why an operation was rejected. Every rejection leaves the records
/// untouched; rejections raised by the custody service itself (say, an
/// underfunded wallet) are the host's to report.
#[derive(Clone, Copy, Debug, PartialEq, Eq)]
pub enum StakingError {
    /// A pool record already exists at the target address.
    DuplicateInitialization,
    /// A subtraction in the reward accrual would go negative in the
    /// unsigned domain.
    ArithmeticUnderflow,
}

} // verus!
