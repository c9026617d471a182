//! The pool-wide laws, proved against the operations' contracts.
//!
//! Every operation touches at most one participant record, so the global
//! statements are phrased over a sequence holding every participant's
//! shares (or cost basis) and over the facts the operations' `ensures`
//! clauses give about the one touched record.

use vstd::prelude::*;

use crate::ops::{clamped_cost_basis, StakeEffect, UnstakeEffect};
use crate::state::{StakingAccount, UserStakingAccount};

verus! {

/// Law: one whole redemption — the burn staged by `unstake` followed by
/// the clamp of `finalize_cost_basis` — leaves the cost basis no larger
/// than it was.
///
/// The hypotheses are what the two contracts give: the burn carries the
/// basis over unchanged, and the clamp writes `clamped_cost_basis`,
/// which by construction never exceeds its input.
pub proof fn lemma_redemption_never_raises_cost_basis(
    user: UserStakingAccount,
    effect: UnstakeEffect,
    settled: UserStakingAccount,
    new_total_token: u64,
    new_total_pool_shares: u64,
)
    requires
        effect.user.amount == user.amount,
        settled.amount == clamped_cost_basis(
            effect.user.pool_shares_amount,
            effect.user.amount,
            new_total_token,
            new_total_pool_shares,
        ),
    ensures
        settled.amount <= user.amount,
{
}

/// The sum of all participants' shares.
pub open spec fn sum_shares(shares: Seq<u64>) -> int
    decreases shares.len(),
{
    if shares.len() == 0 {
        0
    } else {
        shares.first() + sum_shares(shares.drop_first())
    }
}

/// Replacing one entry moves the sum by exactly the difference.
pub proof fn lemma_sum_shares_update(shares: Seq<u64>, i: int, v: u64)
    requires
        0 <= i < shares.len(),
    ensures
        sum_shares(shares.update(i, v)) == sum_shares(shares) - shares[i] + v,
    decreases shares.len(),
{
    if i == 0 {
        assert(shares.update(0, v).first() == v);
        assert(shares.update(0, v).drop_first() =~= shares.drop_first());
    } else {
        assert(shares.update(i, v).first() == shares.first());
        assert(shares.update(i, v).drop_first() =~= shares.drop_first().update(i - 1, v));
        lemma_sum_shares_update(shares.drop_first(), i - 1, v);
    }
}

/// Law: a deposit keeps `total_pool_shares` equal to the sum of all
/// participants' shares.
///
/// `all_shares` holds every participant's shares before the deposit,
/// with the depositor at position `i`; the remaining hypotheses are what
/// `stake`'s contract gives about a staged `StakeEffect`. The new pool
/// total then equals the sum with the depositor's entry replaced by
/// their new shares.
pub proof fn lemma_stake_preserves_share_sum(
    staking: StakingAccount,
    user: UserStakingAccount,
    effect: StakeEffect,
    all_shares: Seq<u64>,
    i: int,
)
    requires
        0 <= i < all_shares.len(),
        all_shares[i] == user.pool_shares_amount,
        staking.total_pool_shares == sum_shares(all_shares),
        effect.staking.total_pool_shares == staking.total_pool_shares + effect.minted,
        effect.user.pool_shares_amount == user.pool_shares_amount + effect.minted,
    ensures
        effect.staking.total_pool_shares == sum_shares(
            all_shares.update(i, effect.user.pool_shares_amount),
        ),
{
    lemma_sum_shares_update(all_shares, i, effect.user.pool_shares_amount);
}

/// Law: a redemption keeps `total_pool_shares` equal to the sum of all
/// participants' shares.
///
/// The counterpart of `lemma_stake_preserves_share_sum` for `unstake`:
/// the burn takes the same `amount` off the pool total and off the
/// participant's entry, so the invariant survives.
pub proof fn lemma_unstake_preserves_share_sum(
    staking: StakingAccount,
    user: UserStakingAccount,
    effect: UnstakeEffect,
    amount: u64,
    all_shares: Seq<u64>,
    i: int,
)
    requires
        0 <= i < all_shares.len(),
        all_shares[i] == user.pool_shares_amount,
        staking.total_pool_shares == sum_shares(all_shares),
        amount <= user.pool_shares_amount,
        amount <= staking.total_pool_shares,
        effect.staking.total_pool_shares == staking.total_pool_shares - amount,
        effect.user.pool_shares_amount == user.pool_shares_amount - amount,
    ensures
        effect.staking.total_pool_shares == sum_shares(
            all_shares.update(i, effect.user.pool_shares_amount),
        ),
{
    lemma_sum_shares_update(all_shares, i, effect.user.pool_shares_amount);
}

/// Law: across any run of redemptions with no intervening deposit, the
/// cost basis never grows.
///
/// `basis` holds one participant's cost basis after each successive
/// call: `unstake` leaves it unchanged and `finalize_cost_basis` ensures
/// the new value is at most the old one, so consecutive entries never
/// grow; this lemma closes the chain over the whole run.
pub proof fn lemma_cost_basis_non_increasing(basis: Seq<u64>)
    requires
        forall|j: int| 0 <= j < basis.len() - 1 ==> #[trigger] basis[j + 1] <= basis[j],
    ensures
        forall|i: int, j: int|
            #![trigger basis[i], basis[j]]
            0 <= i <= j < basis.len() ==> basis[j] <= basis[i],
{
    assert forall|i: int, j: int|
        #![trigger basis[i], basis[j]]
        0 <= i <= j < basis.len() implies basis[j] <= basis[i] by {
        lemma_chain_le(basis, i, j);
    }
}

proof fn lemma_chain_le(basis: Seq<u64>, i: int, j: int)
    requires
        forall|j2: int| 0 <= j2 < basis.len() - 1 ==> #[trigger] basis[j2 + 1] <= basis[j2],
        0 <= i <= j < basis.len(),
    ensures
        basis[j] <= basis[i],
    decreases j - i,
{
    if i < j {
        lemma_chain_le(basis, i, j - 1);
        assert(basis[(j - 1) + 1] <= basis[j - 1]);
    }
}

} // verus!
