//! Token custody actions and their effect on a wallet's balance.
//!
//! The core does not move tokens itself: each operation returns the exact
//! sequence of custody primitives the host must apply, in order, as part
//! of the same atomic transaction. The spec functions here measure what a
//! sequence of actions does to one wallet's balance, which is what the
//! conservation laws in [`crate::laws`] are stated over.

use vstd::prelude::*;
use crate::state::AccountId;

verus! {

/// One invocation of the token custody service.
#[derive(Clone, Copy, Debug, PartialEq, Eq)]
pub enum CustodyAction {
    /// Mint `amount` new units of `token` into `to`, authorized by
    /// `authority`.
    MintTo { token: AccountId, to: AccountId, authority: AccountId, amount: u64 },
    /// Move `amount` units from `from` to `to`, authorized by
    /// `authority`.
    Transfer { from: AccountId, to: AccountId, authority: AccountId, amount: u64 },
}

/// Net change one action makes to `wallet`'s balance. A mint creates new
/// units in its destination; a transfer moves existing units.
pub open spec fn action_delta(a: CustodyAction, wallet: AccountId) -> int {
    match a {
        CustodyAction::MintTo { token: _, to, authority: _, amount } => {
            if to == wallet {
                amount as int
            } else {
                0
            }
        },
        CustodyAction::Transfer { from, to, authority: _, amount } => {
            (if to == wallet {
                amount as int
            } else {
                0
            }) - (if from == wallet {
                amount as int
            } else {
                0
            })
        },
    }
}

/// Net change a sequence of actions makes to `wallet`'s balance.
pub open spec fn custody_delta(s: Seq<CustodyAction>, wallet: AccountId) -> int
    decreases s.len(),
{
    if s.len() == 0 {
        0
    } else {
        action_delta(s[0], wallet) + custody_delta(s.drop_first(), wallet)
    }
}

} // verus!
