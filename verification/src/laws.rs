//! Laws of the staking state machine, proved for all inputs over the
//! same spec functions the operations' contracts use.

use vstd::prelude::*;
use crate::custody::{action_delta, custody_delta, CustodyAction};
use crate::ops::{
    claim_ok, claim_result, payout_at, stake_actions, stake_ok, stake_result, unstake_actions,
    unstake_ok,
};
use crate::state::{Stake, Unstake, UserInfo};

verus! {

/// Staking into a fresh (cleared) record always succeeds and records
/// exactly the deposit: balance `amount`, no reward debt, deposit height
/// `slot`.
pub proof fn lemma_stake_fresh(u: UserInfo, slot: u64, amount: u64)
    requires
        u.is_cleared(),
    ensures
        stake_ok(u, slot),
        stake_result(u, slot, amount) == (UserInfo {
            amount,
            debt_reward: 0,
            deposit_slot: slot,
        }),
{
}

/// A successful `stake` never lowers the recorded deposit height: the
/// clock-regression guard admits only heights at or above it, and the
/// new record carries the current height.
pub proof fn lemma_stake_height_monotonic(u: UserInfo, slot: u64, amount: u64)
    requires
        stake_ok(u, slot),
    ensures
        stake_result(u, slot, amount).deposit_slot >= u.deposit_slot,
{
}

/// Claiming twice at the same height pays nothing the second time: the
/// first claim leaves a record that still accepts a claim at `slot`, but
/// with zero payout pending.
pub proof fn lemma_claim_idempotent_within_height(u: UserInfo, slot: u64)
    requires
        claim_ok(u, slot),
    ensures
        claim_ok(claim_result(u, slot), slot),
        payout_at(claim_result(u, slot), slot) == 0,
{
}

/// `unstake` followed immediately by `claim_reward`, before any new
/// stake, pays nothing: the cleared record holds no stake, and an empty
/// position is owed no reward at any height.
pub proof fn lemma_claim_after_unstake(cleared: UserInfo, slot: u64)
    requires
        cleared.is_cleared(),
    ensures
        claim_ok(cleared, slot),
        payout_at(cleared, slot) == 0,
{
}

/// Conservation on deposit: when the participant's wallet and the pool's
/// custody wallet are distinct, a successful `stake` grows the custody
/// wallet's balance by exactly `amount`.
pub proof fn lemma_stake_conservation(ctx: Stake, u: UserInfo, slot: u64, amount: u64)
    requires
        stake_ok(u, slot),
        ctx.user_staking_wallet != ctx.admin_staking_wallet,
    ensures
        custody_delta(stake_actions(ctx, u, slot, amount), ctx.admin_staking_wallet)
            == amount,
{
    let w = ctx.admin_staking_wallet;
    let s = stake_actions(ctx, u, slot, amount);
    if u.amount > 0 {
        let rest = s.drop_first();
        assert(rest.drop_first() =~= Seq::<CustodyAction>::empty());
        assert(custody_delta(rest.drop_first(), w) == 0);
        assert(rest[0] == s[1]);
        assert(custody_delta(rest, w) == action_delta(s[1], w));
        assert(custody_delta(s, w) == action_delta(s[0], w) + action_delta(s[1], w));
        assert(action_delta(s[0], w) == 0);
        assert(action_delta(s[1], w) == amount);
    } else {
        let rest = s.drop_first();
        assert(rest =~= Seq::<CustodyAction>::empty());
        assert(custody_delta(rest, w) == 0);
        assert(custody_delta(s, w) == action_delta(s[0], w));
        assert(action_delta(s[0], w) == amount);
    }
}

/// Conservation on withdrawal: when the participant's wallet and the
/// pool's custody wallet are distinct, a successful `unstake` shrinks
/// the custody wallet's balance by exactly the prior staked amount. The
/// reward mint targets the participant's wallet and never touches the
/// custody wallet.
pub proof fn lemma_unstake_conservation(ctx: Unstake, u: UserInfo, slot: u64)
    requires
        unstake_ok(u, slot),
        ctx.user_staking_wallet != ctx.admin_staking_wallet,
    ensures
        custody_delta(unstake_actions(ctx, u, slot), ctx.admin_staking_wallet)
            == -(u.amount as int),
{
    let w = ctx.admin_staking_wallet;
    let s = unstake_actions(ctx, u, slot);
    let rest = s.drop_first();
    assert(rest.drop_first() =~= Seq::<CustodyAction>::empty());
    assert(custody_delta(rest.drop_first(), w) == 0);
    assert(rest[0] == s[1]);
    assert(custody_delta(rest, w) == action_delta(s[1], w));
    assert(custody_delta(s, w) == action_delta(s[0], w) + action_delta(s[1], w));
    assert(action_delta(s[0], w) == 0);
    assert(action_delta(s[1], w) == -(u.amount as int));
}

} // verus!
