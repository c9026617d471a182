//! The pool operations, written as pure transitions.
//!
//! Each operation takes the current records and a snapshot of the vault
//! balance and returns either the updated records (plus the amount the
//! external vault must move) or a typed failure. Nothing here performs a
//! transfer: the hosting environment executes the returned transfer and
//! commits the records only when it succeeds, so a failed transfer leaves
//! no partial state behind.

use vstd::prelude::*;

use crate::error::ErrorCode;
use crate::state::{same_pool_config, AccountKey, StakingAccount, UserStakingAccount};
use vstd::arithmetic::div_mod::lemma_multiply_divide_le;
use vstd::arithmetic::mul::{lemma_mul_inequality, lemma_mul_upper_bound};

verus! {

/// Shares minted for a deposit of `amount`, priced off the reserve and
/// the outstanding shares as they stood before the deposit. On an empty
/// pool the first depositor gets one share per asset unit; otherwise the
/// mint is proportional and truncates, so rounding loss falls on the
/// depositor, never on the pool.
pub open spec fn minted_shares(amount: u64, total_token: u64, total_pool_shares: u64) -> int {
    if total_token == 0 || total_pool_shares == 0 {
        amount as int
    } else {
        (amount as int * total_pool_shares as int) / (total_token as int)
    }
}

/// Asset units paid out for redeeming `amount` shares, proportional to
/// the reserve and the outstanding shares as they stood before the burn,
/// truncating.
pub open spec fn payout_amount(amount: u64, total_token: u64, total_pool_shares: u64) -> int
    recommends
        total_pool_shares > 0,
{
    (amount as int * total_token as int) / (total_pool_shares as int)
}

/// Whether a deposit of `amount` stays within 64-bit bounds: the minted
/// shares themselves, both share counters after the mint, and the cost
/// basis after adding the deposit.
pub open spec fn stake_fits(
    staking: StakingAccount,
    user: UserStakingAccount,
    total_token: u64,
    amount: u64,
) -> bool {
    let m = minted_shares(amount, total_token, staking.total_pool_shares);
    &&& m <= u64::MAX
    &&& staking.total_pool_shares + m <= u64::MAX
    &&& user.pool_shares_amount + m <= u64::MAX
    &&& user.amount + amount <= u64::MAX
}

/// The cost basis after the post-withdrawal clamp: zero when the pool is
/// empty, otherwise lowered to the remaining shares' current value when
/// that value fell below the old basis, and kept unchanged otherwise.
/// The clamp is deliberately asymmetric: this step never raises the
/// basis, so it tracks a conservative "amount still at risk".
pub open spec fn clamped_cost_basis(
    shares: u64,
    cost_basis: u64,
    new_total_token: u64,
    new_total_pool_shares: u64,
) -> int {
    if new_total_token == 0 || new_total_pool_shares == 0 {
        0
    } else {
        let candidate = (shares as int * new_total_token as int) / (new_total_pool_shares as int);
        if candidate < cost_basis {
            candidate
        } else {
            cost_basis as int
        }
    }
}

/// The records a successful deposit stages, together with how much the
/// external vault must pull in from the depositor.
#[derive(Clone, Copy, Debug, PartialEq, Eq, Structural)]
pub struct StakeEffect {
    /// Pool record after the mint.
    pub staking: StakingAccount,
    /// Participant record after the mint and the cost-basis increase.
    pub user: UserStakingAccount,
    /// Shares minted for this deposit.
    pub minted: u64,
}

/// The records a successful redemption stages, together with how much
/// the external vault must pay out to the participant.
#[derive(Clone, Copy, Debug, PartialEq, Eq, Structural)]
pub struct UnstakeEffect {
    /// Pool record after the burn.
    pub staking: StakingAccount,
    /// Participant record after the burn; the cost basis is clamped only
    /// later, by `finalize_cost_basis`, once the vault balance has been
    /// re-read after the transfer.
    pub user: UserStakingAccount,
    /// Asset units the vault owes the participant.
    pub payout: u64,
}

/// Create the global pool record. The hosting platform derives the pool
/// and vault addresses; the core only checks that the bump seed the
/// caller claimed matches the derived one, and writes the initial record.
pub fn initialize(
    staking_account_bump: u8,
    derived_bump: u8,
    vault_bump: u8,
    initializer_key: AccountKey,
    lock_end_date: u64,
    token_mint_key: AccountKey,
) -> (r: Result<StakingAccount, ErrorCode>)
    ensures
        staking_account_bump != derived_bump ==> r == Err::<StakingAccount, ErrorCode>(
            ErrorCode::IncorrectStakingAccountBump,
        ),
        staking_account_bump == derived_bump ==> r == Ok::<StakingAccount, ErrorCode>(
            (StakingAccount {
                vault_bump,
                initializer_key,
                lock_end_date,
                total_pool_shares: 0,
                freeze_program: false,
                token_mint_key,
            }),
        ),
{
    if staking_account_bump != derived_bump {
        return Err(ErrorCode::IncorrectStakingAccountBump);
    }
    Ok(StakingAccount {
        vault_bump,
        initializer_key,
        lock_end_date,
        total_pool_shares: 0,
        freeze_program: false,
        token_mint_key,
    })
}

/// Move the redemption lock, administrator only.
pub fn update_lock_end_date(
    staking: &mut StakingAccount,
    caller: AccountKey,
    new_lock_end_date: u64,
) -> (r: Result<(), ErrorCode>)
    ensures
        caller != old(staking).initializer_key ==> r == Err::<(), ErrorCode>(ErrorCode::Forbidden)
            && *final(staking) == *old(staking),
        caller == old(staking).initializer_key ==> r == Ok::<(), ErrorCode>(())
            && final(staking).lock_end_date == new_lock_end_date
            && final(staking).vault_bump == old(staking).vault_bump
            && final(staking).initializer_key == old(staking).initializer_key
            && final(staking).total_pool_shares == old(staking).total_pool_shares
            && final(staking).freeze_program == old(staking).freeze_program
            && final(staking).token_mint_key == old(staking).token_mint_key,
{
    if caller != staking.initializer_key {
        return Err(ErrorCode::Forbidden);
    }
    staking.lock_end_date = new_lock_end_date;
    Ok(())
}

/// Hand the pool to a new administrator, administrator only.
pub fn update_admin(
    staking: &mut StakingAccount,
    caller: AccountKey,
    new_admin: AccountKey,
) -> (r: Result<(), ErrorCode>)
    ensures
        caller != old(staking).initializer_key ==> r == Err::<(), ErrorCode>(ErrorCode::Forbidden)
            && *final(staking) == *old(staking),
        caller == old(staking).initializer_key ==> r == Ok::<(), ErrorCode>(())
            && final(staking).initializer_key == new_admin
            && final(staking).vault_bump == old(staking).vault_bump
            && final(staking).lock_end_date == old(staking).lock_end_date
            && final(staking).total_pool_shares == old(staking).total_pool_shares
            && final(staking).freeze_program == old(staking).freeze_program
            && final(staking).token_mint_key == old(staking).token_mint_key,
{
    if caller != staking.initializer_key {
        return Err(ErrorCode::Forbidden);
    }
    staking.initializer_key = new_admin;
    Ok(())
}

/// Raise or clear the emergency freeze, administrator only.
pub fn toggle_freeze_program(
    staking: &mut StakingAccount,
    caller: AccountKey,
    new_freeze_program: bool,
) -> (r: Result<(), ErrorCode>)
    ensures
        caller != old(staking).initializer_key ==> r == Err::<(), ErrorCode>(ErrorCode::Forbidden)
            && *final(staking) == *old(staking),
        caller == old(staking).initializer_key ==> r == Ok::<(), ErrorCode>(())
            && final(staking).freeze_program == new_freeze_program
            && final(staking).vault_bump == old(staking).vault_bump
            && final(staking).initializer_key == old(staking).initializer_key
            && final(staking).lock_end_date == old(staking).lock_end_date
            && final(staking).total_pool_shares == old(staking).total_pool_shares
            && final(staking).token_mint_key == old(staking).token_mint_key,
{
    if caller != staking.initializer_key {
        return Err(ErrorCode::Forbidden);
    }
    staking.freeze_program = new_freeze_program;
    Ok(())
}

/// Deposit `amount` asset units.
///
/// Mints shares priced off `total_token`, the vault balance captured
/// before the transfer, and stages the updated records. The caller then
/// moves `amount` into the vault and commits the staged records only if
/// that transfer succeeds.
pub fn stake(
    staking: &StakingAccount,
    user: &UserStakingAccount,
    total_token: u64,
    amount: u64,
) -> (r: Result<StakeEffect, ErrorCode>)
    ensures
        staking.freeze_program ==> r == Err::<StakeEffect, ErrorCode>(ErrorCode::ProgramIsFrozen),
        !staking.freeze_program && !stake_fits(*staking, *user, total_token, amount) ==> r == Err::<
            StakeEffect,
            ErrorCode,
        >(ErrorCode::ArithmeticOverflow),
        !staking.freeze_program && stake_fits(*staking, *user, total_token, amount) ==> (r matches Ok(e)
            && e.minted == minted_shares(amount, total_token, staking.total_pool_shares)
            && same_pool_config(e.staking, *staking)
            && e.staking.total_pool_shares == staking.total_pool_shares + e.minted
            && e.user.pool_shares_amount == user.pool_shares_amount + e.minted
            && e.user.amount == user.amount + amount),
{
    if staking.freeze_program {
        return Err(ErrorCode::ProgramIsFrozen);
    }
    let minted: u64;
    if total_token == 0 || staking.total_pool_shares == 0 {
        minted = amount;
    } else {
        proof {
            lemma_mul_upper_bound(
                amount as int,
                u64::MAX as int,
                staking.total_pool_shares as int,
                u64::MAX as int,
            );
        }
        let product: u128 = (amount as u128) * (staking.total_pool_shares as u128);
        let quotient: u128 = product / (total_token as u128);
        if quotient > u64::MAX as u128 {
            return Err(ErrorCode::ArithmeticOverflow);
        }
        minted = quotient as u64;
    }
    if staking.total_pool_shares > u64::MAX - minted {
        return Err(ErrorCode::ArithmeticOverflow);
    }
    if user.pool_shares_amount > u64::MAX - minted {
        return Err(ErrorCode::ArithmeticOverflow);
    }
    if user.amount > u64::MAX - amount {
        return Err(ErrorCode::ArithmeticOverflow);
    }
    Ok(
        StakeEffect {
            staking: StakingAccount {
                vault_bump: staking.vault_bump,
                initializer_key: staking.initializer_key,
                lock_end_date: staking.lock_end_date,
                total_pool_shares: staking.total_pool_shares + minted,
                freeze_program: staking.freeze_program,
                token_mint_key: staking.token_mint_key,
            },
            user: UserStakingAccount {
                amount: user.amount + amount,
                pool_shares_amount: user.pool_shares_amount + minted,
            },
            minted,
        },
    )
}

/// Redeem `amount` shares.
///
/// Burns the shares and computes the proportional payout off `total_token`
/// and the share total as they stood before the burn, so every
/// outstanding share is valued off the same snapshot. The caller then
/// pays `payout` out of the vault, commits the staged records only if
/// that transfer succeeds, and finally calls `finalize_cost_basis` with
/// the re-read vault balance.
///
/// The guards are checked in this order: freeze, share ownership, time
/// lock, then the arithmetic on the pool total.
pub fn unstake(
    staking: &StakingAccount,
    user: &UserStakingAccount,
    total_token: u64,
    now_ts: u64,
    amount: u64,
) -> (r: Result<UnstakeEffect, ErrorCode>)
    ensures
        staking.freeze_program ==> r == Err::<UnstakeEffect, ErrorCode>(ErrorCode::ProgramIsFrozen),
        !staking.freeze_program && user.pool_shares_amount < amount ==> r == Err::<
            UnstakeEffect,
            ErrorCode,
        >(ErrorCode::NotEnoughShares),
        !staking.freeze_program && user.pool_shares_amount >= amount && now_ts
            < staking.lock_end_date ==> r == Err::<UnstakeEffect, ErrorCode>(
            ErrorCode::NotExceedLockEndDate,
        ),
        !staking.freeze_program && user.pool_shares_amount >= amount && now_ts
            >= staking.lock_end_date && staking.total_pool_shares < amount ==> r == Err::<
            UnstakeEffect,
            ErrorCode,
        >(ErrorCode::ArithmeticUnderflow),
        !staking.freeze_program && user.pool_shares_amount >= amount && now_ts
            >= staking.lock_end_date && staking.total_pool_shares >= amount
            && staking.total_pool_shares == 0 ==> r == Err::<UnstakeEffect, ErrorCode>(
            ErrorCode::ArithmeticOverflow,
        ),
        !staking.freeze_program && user.pool_shares_amount >= amount && now_ts
            >= staking.lock_end_date && staking.total_pool_shares >= amount
            && staking.total_pool_shares > 0 ==> (r matches Ok(e)
            && same_pool_config(e.staking, *staking)
            && e.staking.total_pool_shares == staking.total_pool_shares - amount
            && e.user.pool_shares_amount == user.pool_shares_amount - amount
            && e.user.amount == user.amount
            && e.payout == payout_amount(amount, total_token, staking.total_pool_shares)
            && e.payout <= total_token),
{
    if staking.freeze_program {
        return Err(ErrorCode::ProgramIsFrozen);
    }
    if user.pool_shares_amount < amount {
        return Err(ErrorCode::NotEnoughShares);
    }
    if now_ts < staking.lock_end_date {
        return Err(ErrorCode::NotExceedLockEndDate);
    }
    if staking.total_pool_shares < amount {
        return Err(ErrorCode::ArithmeticUnderflow);
    }
    if staking.total_pool_shares == 0 {
        return Err(ErrorCode::ArithmeticOverflow);
    }
    proof {
        lemma_mul_upper_bound(amount as int, u64::MAX as int, total_token as int, u64::MAX as int);
    }
    let product: u128 = (amount as u128) * (total_token as u128);
    let quotient: u128 = product / (staking.total_pool_shares as u128);
    proof {
        lemma_mul_inequality(
            amount as int,
            staking.total_pool_shares as int,
            total_token as int,
        );
        lemma_multiply_divide_le(
            amount as int * total_token as int,
            staking.total_pool_shares as int,
            total_token as int,
        );
    }
    let payout: u64 = quotient as u64;
    Ok(
        UnstakeEffect {
            staking: StakingAccount {
                vault_bump: staking.vault_bump,
                initializer_key: staking.initializer_key,
                lock_end_date: staking.lock_end_date,
                total_pool_shares: staking.total_pool_shares - amount,
                freeze_program: staking.freeze_program,
                token_mint_key: staking.token_mint_key,
            },
            user: UserStakingAccount {
                amount: user.amount,
                pool_shares_amount: user.pool_shares_amount - amount,
            },
            payout,
        },
    )
}

/// Recompute the cost basis after a redemption, off the vault balance
/// and share total as re-read after the payout transfer.
///
/// When the pool emptied, the basis drops to zero; otherwise it is
/// lowered to the remaining shares' current value if that value fell
/// below it, and left alone if not. In every case the basis comes out no
/// larger than it went in.
pub fn finalize_cost_basis(
    user: &mut UserStakingAccount,
    new_total_token: u64,
    new_total_pool_shares: u64,
) -> (r: Result<(), ErrorCode>)
    ensures
        final(user).pool_shares_amount == old(user).pool_shares_amount,
        final(user).amount == clamped_cost_basis(
            old(user).pool_shares_amount,
            old(user).amount,
            new_total_token,
            new_total_pool_shares,
        ),
        final(user).amount <= old(user).amount,
        ({
            let candidate = old(user).pool_shares_amount as int * new_total_token as int / (
            new_total_pool_shares as int);
            if new_total_token != 0 && new_total_pool_shares != 0 && candidate > u64::MAX {
                r == Err::<(), ErrorCode>(ErrorCode::ArithmeticOverflow)
            } else {
                r == Ok::<(), ErrorCode>(())
            }
        }),
{
    if new_total_token == 0 || new_total_pool_shares == 0 {
        user.amount = 0;
        return Ok(());
    }
    proof {
        lemma_mul_upper_bound(
            user.pool_shares_amount as int,
            u64::MAX as int,
            new_total_token as int,
            u64::MAX as int,
        );
    }
    let product: u128 = (user.pool_shares_amount as u128) * (new_total_token as u128);
    let candidate: u128 = product / (new_total_pool_shares as u128);
    if candidate > u64::MAX as u128 {
        return Err(ErrorCode::ArithmeticOverflow);
    }
    let candidate64: u64 = candidate as u64;
    if candidate64 < user.amount {
        user.amount = candidate64;
    }
    Ok(())
}

} // verus!
