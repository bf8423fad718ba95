//! The staking state machine: the four operations and the reward
//! accrual they share.
//!
//! Each operation takes the current block height (`slot`) from the host,
//! mutates the records it owns, and returns the custody actions the host
//! must apply in the same atomic transaction. Any error leaves every
//! record exactly as it was.

use vstd::prelude::*;
use crate::custody::CustodyAction;
use crate::state::{Claimreward, Initialize, PoolInfo, Stake, StakingError, Unstake, UserInfo};

verus! {

/// The accrual subtraction `(slot - deposit_slot) - debt_reward` stays
/// in the unsigned domain.
pub open spec fn reward_defined(u: UserInfo, slot: u64) -> bool {
    u.deposit_slot <= slot && u.debt_reward <= slot - u.deposit_slot
}

/// Reward accrued but not yet paid at height `slot`: linear in elapsed
/// height since the deposit, minus what was already paid out, and
/// deliberately not scaled by the staked amount.
pub open spec fn reward_at(u: UserInfo, slot: u64) -> int {
    slot - u.deposit_slot - u.debt_reward
}

/// Reward actually paid out at height `slot`: an empty position accrues
/// nothing, so a record cleared by `unstake` (or one that only ever held
/// a zero deposit) is never owed a payout.
pub open spec fn payout_at(u: UserInfo, slot: u64) -> int {
    if u.amount > 0 {
        reward_at(u, slot)
    } else {
        0
    }
}

/// Checked accrual computation shared by `stake`, `unstake` and
/// `claim_reward`: rejects exactly the states in which the unsigned
/// subtraction would wrap.
pub fn compute_reward(user_info: &UserInfo, slot: u64) -> (r: Result<u64, StakingError>)
    ensures
        match r {
            Ok(v) => reward_defined(*user_info, slot) && v == reward_at(*user_info, slot),
            Err(e) => !reward_defined(*user_info, slot) && e == StakingError::ArithmeticUnderflow,
        },
{
    if slot < user_info.deposit_slot {
        return Err(StakingError::ArithmeticUnderflow);
    }
    let elapsed: u64 = slot - user_info.deposit_slot;
    if user_info.debt_reward > elapsed {
        return Err(StakingError::ArithmeticUnderflow);
    }
    Ok(elapsed - user_info.debt_reward)
}

/// Creates the pool record, rejecting a second creation at the same
/// address.
pub fn initialize(
    ctx: &Initialize,
    existing: &Option<PoolInfo>,
    start_slot: u64,
    end_slot: u64,
) -> (r: Result<PoolInfo, StakingError>)
    ensures
        match r {
            Ok(p) => existing.is_none() && p == (PoolInfo {
                admin: ctx.admin,
                start_slot,
                end_slot,
                token: ctx.staking_token,
            }),
            Err(e) => existing.is_some() && e == StakingError::DuplicateInitialization,
        },
{
    match existing {
        Option::Some(_) => Err(StakingError::DuplicateInitialization),
        Option::None => Ok(
            PoolInfo { admin: ctx.admin, start_slot, end_slot, token: ctx.staking_token },
        ),
    }
}

/// `stake` rejects a clock regression on any record, and on an active
/// position also a reward debt that has drifted past the elapsed
/// height.
pub open spec fn stake_ok(u: UserInfo, slot: u64) -> bool {
    u.deposit_slot <= slot && (u.amount == 0 || u.debt_reward <= slot - u.deposit_slot)
}

/// The record a successful `stake` leaves behind: balance grown by
/// `amount`, deposit height refreshed, reward debt reset.
pub open spec fn stake_result(u: UserInfo, slot: u64, amount: u64) -> UserInfo {
    UserInfo { amount: (u.amount + amount) as u64, debt_reward: 0, deposit_slot: slot }
}

/// The custody actions a successful `stake` asks for: pay any pending
/// reward first, then move `amount` into the pool's custody wallet.
pub open spec fn stake_actions(ctx: Stake, u: UserInfo, slot: u64, amount: u64) -> Seq<
    CustodyAction,
> {
    let pay_in = CustodyAction::Transfer {
        from: ctx.user_staking_wallet,
        to: ctx.admin_staking_wallet,
        authority: ctx.user,
        amount,
    };
    if u.amount > 0 {
        seq![
            CustodyAction::MintTo {
                token: ctx.staking_token,
                to: ctx.user_staking_wallet,
                authority: ctx.admin_staking_wallet,
                amount: payout_at(u, slot) as u64,
            },
            pay_in,
        ]
    } else {
        seq![pay_in]
    }
}

/// Deposits `amount` of the staking token into the pool's custody wallet
/// and records the position. A record that already holds a stake first
/// has its pending reward paid out; a deposit below the recorded height
/// is a clock regression and is rejected outright.
pub fn stake(ctx: &Stake, user_info: &mut UserInfo, slot: u64, amount: u64) -> (r: Result<
    Vec<CustodyAction>,
    StakingError,
>)
    requires
        old(user_info).amount + amount <= u64::MAX,
    ensures
        match r {
            Ok(actions) => {
                &&& stake_ok(*old(user_info), slot)
                &&& actions@ =~= stake_actions(*ctx, *old(user_info), slot, amount)
                &&& *final(user_info) == stake_result(*old(user_info), slot, amount)
            },
            Err(e) => {
                &&& !stake_ok(*old(user_info), slot)
                &&& e == StakingError::ArithmeticUnderflow
                &&& *final(user_info) == *old(user_info)
            },
        },
{
    if slot < user_info.deposit_slot {
        return Err(StakingError::ArithmeticUnderflow);
    }
    let mut actions: Vec<CustodyAction> = Vec::new();
    if user_info.amount > 0 {
        let reward: u64 = match compute_reward(user_info, slot) {
            Ok(v) => v,
            Err(e) => {
                return Err(e);
            },
        };
        actions.push(
            CustodyAction::MintTo {
                token: ctx.staking_token,
                to: ctx.user_staking_wallet,
                authority: ctx.admin_staking_wallet,
                amount: reward,
            },
        );
    }
    actions.push(
        CustodyAction::Transfer {
            from: ctx.user_staking_wallet,
            to: ctx.admin_staking_wallet,
            authority: ctx.user,
            amount,
        },
    );
    user_info.amount = user_info.amount + amount;
    user_info.deposit_slot = slot;
    user_info.debt_reward = 0;
    Ok(actions)
}

/// `unstake` succeeds exactly when the accrual subtraction stays in the
/// unsigned domain.
pub open spec fn unstake_ok(u: UserInfo, slot: u64) -> bool {
    reward_defined(u, slot)
}

/// The custody actions a successful `unstake` asks for: pay the pending
/// reward, then return the whole principal from the custody wallet. An
/// empty position is owed no reward, so its mint is for zero.
pub open spec fn unstake_actions(ctx: Unstake, u: UserInfo, slot: u64) -> Seq<CustodyAction> {
    seq![
        CustodyAction::MintTo {
            token: ctx.staking_token,
            to: ctx.user_staking_wallet,
            authority: ctx.admin_staking_wallet,
            amount: payout_at(u, slot) as u64,
        },
        CustodyAction::Transfer {
            from: ctx.admin_staking_wallet,
            to: ctx.user_staking_wallet,
            authority: ctx.admin,
            amount: u.amount,
        },
    ]
}

/// Closes the position: pays all accrued reward, returns the full
/// principal, and resets the record to its empty, reusable state.
pub fn unstake(ctx: &Unstake, user_info: &mut UserInfo, slot: u64) -> (r: Result<
    Vec<CustodyAction>,
    StakingError,
>)
    ensures
        match r {
            Ok(actions) => {
                &&& unstake_ok(*old(user_info), slot)
                &&& actions@ =~= unstake_actions(*ctx, *old(user_info), slot)
                &&& final(user_info).is_cleared()
            },
            Err(e) => {
                &&& !unstake_ok(*old(user_info), slot)
                &&& e == StakingError::ArithmeticUnderflow
                &&& *final(user_info) == *old(user_info)
            },
        },
{
    let pending: u64 = match compute_reward(user_info, slot) {
        Ok(v) => v,
        Err(e) => {
            return Err(e);
        },
    };
    let reward: u64 = if user_info.amount > 0 {
        pending
    } else {
        0
    };
    let mut actions: Vec<CustodyAction> = Vec::new();
    actions.push(
        CustodyAction::MintTo {
            token: ctx.staking_token,
            to: ctx.user_staking_wallet,
            authority: ctx.admin_staking_wallet,
            amount: reward,
        },
    );
    actions.push(
        CustodyAction::Transfer {
            from: ctx.admin_staking_wallet,
            to: ctx.user_staking_wallet,
            authority: ctx.admin,
            amount: user_info.amount,
        },
    );
    user_info.amount = 0;
    user_info.deposit_slot = 0;
    user_info.debt_reward = 0;
    Ok(actions)
}

/// `claim_reward` succeeds exactly when the accrual subtraction stays in
/// the unsigned domain.
pub open spec fn claim_ok(u: UserInfo, slot: u64) -> bool {
    reward_defined(u, slot)
}

/// The record a successful `claim_reward` leaves behind: on an active
/// position the reward debt catches up with the elapsed height; an
/// empty position is paid nothing and keeps its debt. Principal and
/// deposit height are untouched either way.
pub open spec fn claim_result(u: UserInfo, slot: u64) -> UserInfo {
    UserInfo {
        amount: u.amount,
        debt_reward: (u.debt_reward + payout_at(u, slot)) as u64,
        deposit_slot: u.deposit_slot,
    }
}

/// The custody action a successful `claim_reward` asks for: mint the
/// reward owed to the participant's wallet — zero on an empty position.
/// The mint is authorized by the pool admin account itself here, not by
/// the custody wallet.
pub open spec fn claim_actions(ctx: Claimreward, u: UserInfo, slot: u64) -> Seq<CustodyAction> {
    seq![
        CustodyAction::MintTo {
            token: ctx.staking_token,
            to: ctx.user_staking_wallet,
            authority: ctx.admin,
            amount: payout_at(u, slot) as u64,
        },
    ]
}

/// Pays out the accrued reward without touching the staked principal.
/// A position with nothing staked — in particular one just cleared by
/// `unstake` — is owed nothing and has a zero mint recorded.
pub fn claim_reward(ctx: &Claimreward, user_info: &mut UserInfo, slot: u64) -> (r: Result<
    Vec<CustodyAction>,
    StakingError,
>)
    ensures
        match r {
            Ok(actions) => {
                &&& claim_ok(*old(user_info), slot)
                &&& actions@ =~= claim_actions(*ctx, *old(user_info), slot)
                &&& *final(user_info) == claim_result(*old(user_info), slot)
            },
            Err(e) => {
                &&& !claim_ok(*old(user_info), slot)
                &&& e == StakingError::ArithmeticUnderflow
                &&& *final(user_info) == *old(user_info)
            },
        },
{
    let pending: u64 = match compute_reward(user_info, slot) {
        Ok(v) => v,
        Err(e) => {
            return Err(e);
        },
    };
    let reward: u64 = if user_info.amount > 0 {
        pending
    } else {
        0
    };
    let mut actions: Vec<CustodyAction> = Vec::new();
    actions.push(
        CustodyAction::MintTo {
            token: ctx.staking_token,
            to: ctx.user_staking_wallet,
            authority: ctx.admin,
            amount: reward,
        },
    );
    user_info.debt_reward = user_info.debt_reward + reward;
    Ok(actions)
}

} // verus!
