//! Pricing and the read-only queries, plus the notification records that
//! external observers consume.

use vstd::prelude::*;

use crate::error::ErrorCode;
use crate::state::{StakingAccount, UserStakingAccount};
use crate::text::{display_str, render_price};
use vstd::arithmetic::mul::lemma_mul_upper_bound;

verus! {

/// Notification payload: the price moved across a deposit or redemption.
#[derive(Clone, Debug)]
pub struct PriceChange {
    /// Fixed-point price before the operation, scaled by 1e9.
    pub old_token_per_pool_share_e9: u64,
    /// Display form of the price before the operation.
    pub old_token_per_pool_share: String,
    /// Fixed-point price after the operation, scaled by 1e9.
    pub new_token_per_pool_share_e9: u64,
    /// Display form of the price after the operation.
    pub new_token_per_pool_share: String,
}

/// Notification payload: the current price, on request.
#[derive(Clone, Debug)]
pub struct Price {
    /// Fixed-point price, scaled by 1e9.
    pub token_per_pool_share_e9: u64,
    /// Display form of the price.
    pub token_per_pool_share: String,
}

/// Notification payload: one participant's deposit and accrued reward.
#[derive(Clone, Copy, Debug, PartialEq, Eq, Structural)]
pub struct Reward {
    /// The participant's tracked cost basis.
    pub deposit: u64,
    /// Current value of the participant's shares minus the cost basis.
    pub reward: u64,
}

/// The authoritative price: asset units per share, scaled by 1e9 and
/// truncated. A pool with no outstanding shares has the reserved price
/// zero.
pub open spec fn price_e9(total_token: u64, total_pool_shares: u64) -> int {
    if total_pool_shares == 0 {
        0
    } else {
        (total_token as int * 1000000000) / (total_pool_shares as int)
    }
}

/// Current value of `shares` shares against a reserve of `total_token`
/// split over `total_pool_shares` shares, truncated.
pub open spec fn current_share_value(shares: u64, total_token: u64, total_pool_shares: u64) -> int
    recommends
        total_pool_shares > 0,
{
    (shares as int * total_token as int) / (total_pool_shares as int)
}

/// The price of one share, as the fixed-point integer and its display
/// form. `total_token` is the vault balance; a pool with no shares
/// prices at `(0, "0")`.
pub fn get_price(total_token: u64, staking: &StakingAccount) -> (r: Result<
    (u64, String),
    ErrorCode,
>)
    ensures
        ({
            let p = price_e9(total_token, staking.total_pool_shares);
            if p > u64::MAX {
                r == Err::<(u64, String), ErrorCode>(ErrorCode::ArithmeticOverflow)
            } else {
                r matches Ok(pr) && pr.0 == p && pr.1@ == display_str(p as nat)
            }
        }),
{
    let p: u64;
    if staking.total_pool_shares == 0 {
        p = 0;
    } else {
        proof {
            lemma_mul_upper_bound(
                total_token as int,
                u64::MAX as int,
                1000000000,
                1000000000,
            );
        }
        let product: u128 = (total_token as u128) * 1000000000u128;
        let quotient: u128 = product / (staking.total_pool_shares as u128);
        if quotient > u64::MAX as u128 {
            return Err(ErrorCode::ArithmeticOverflow);
        }
        p = quotient as u64;
    }
    let display = render_price(p);
    Ok((p, display))
}

/// Build the price notification: `get_price` wrapped in its payload.
pub fn emit_price(total_token: u64, staking: &StakingAccount) -> (r: Result<Price, ErrorCode>)
    ensures
        ({
            let p = price_e9(total_token, staking.total_pool_shares);
            if p > u64::MAX {
                r == Err::<Price, ErrorCode>(ErrorCode::ArithmeticOverflow)
            } else {
                r matches Ok(pr) && pr.token_per_pool_share_e9 == p && pr.token_per_pool_share@
                    == display_str(p as nat)
            }
        }),
{
    let price = get_price(total_token, staking)?;
    Ok(Price { token_per_pool_share_e9: price.0, token_per_pool_share: price.1 })
}

/// Build the reward notification for one participant: the current value
/// of their shares minus their cost basis, beside the cost basis itself.
/// Meaningless on an empty pool, where it fails; a current value below
/// the cost basis marks a broken invariant and is surfaced, never
/// clamped.
pub fn emit_reward(
    user: &UserStakingAccount,
    total_token: u64,
    total_pool_shares: u64,
) -> (r: Result<Reward, ErrorCode>)
    ensures
        total_pool_shares == 0 ==> r == Err::<Reward, ErrorCode>(ErrorCode::ArithmeticOverflow),
        total_pool_shares > 0 ==> ({
            let cur = current_share_value(user.pool_shares_amount, total_token, total_pool_shares);
            if cur < user.amount {
                r == Err::<Reward, ErrorCode>(ErrorCode::ArithmeticUnderflow)
            } else if cur - user.amount > u64::MAX {
                r == Err::<Reward, ErrorCode>(ErrorCode::ArithmeticOverflow)
            } else {
                r == Ok::<Reward, ErrorCode>(
                    (Reward { deposit: user.amount, reward: (cur - user.amount) as u64 }),
                )
            }
        }),
{
    if total_pool_shares == 0 {
        return Err(ErrorCode::ArithmeticOverflow);
    }
    proof {
        lemma_mul_upper_bound(
            user.pool_shares_amount as int,
            u64::MAX as int,
            total_token as int,
            u64::MAX as int,
        );
    }
    let product: u128 = (user.pool_shares_amount as u128) * (total_token as u128);
    let current: u128 = product / (total_pool_shares as u128);
    if current < user.amount as u128 {
        return Err(ErrorCode::ArithmeticUnderflow);
    }
    let reward: u128 = current - user.amount as u128;
    if reward > u64::MAX as u128 {
        return Err(ErrorCode::ArithmeticOverflow);
    }
    Ok(Reward { deposit: user.amount, reward: reward as u64 })
}

} // verus!
