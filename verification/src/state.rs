//! The records the pool keeps: the global pool state and one record per
//! participant.

use vstd::prelude::*;

verus! {

/// A 32-byte account address, held as four 64-bit words so that equality
/// in contracts is plain field equality. The core only ever compares
/// these; deriving them from seeds is the hosting platform's concern.
#[derive(Clone, Copy, Debug, PartialEq, Eq, Structural)]
pub struct AccountKey {
    pub w0: u64,
    pub w1: u64,
    pub w2: u64,
    pub w3: u64,
}

/// The singleton global pool record, created once by `initialize`.
#[derive(Clone, Copy, Debug, PartialEq, Eq, Structural)]
pub struct StakingAccount {
    /// Bump seed of the derived vault address, stored so the pool can
    /// authorize withdrawals from its own vault.
    pub vault_bump: u8,
    /// The administrator: the only identity allowed to mutate the lock,
    /// the admin itself, or the freeze flag.
    pub initializer_key: AccountKey,
    /// Unix time before which redemption is disallowed.
    pub lock_end_date: u64,
    /// Sum of all participants' shares.
    pub total_pool_shares: u64,
    /// When true, deposits and redemptions are disallowed.
    pub freeze_program: bool,
    /// Identifier of the pooled asset; immutable after creation.
    pub token_mint_key: AccountKey,
}

/// One participant's record, created lazily on first deposit and never
/// deleted; both fields may return to zero.
#[derive(Clone, Copy, Debug, PartialEq, Eq, Structural)]
pub struct UserStakingAccount {
    /// Tracked cost basis: grows by the deposited amount on every deposit
    /// and is only ever clamped downward on withdrawal. Used solely for
    /// reward reporting.
    pub amount: u64,
    /// This participant's claim on the pool.
    pub pool_shares_amount: u64,
}

/// The fields of the pool record that deposits and redemptions never
/// touch: everything but `total_pool_shares`.
pub open spec fn same_pool_config(a: StakingAccount, b: StakingAccount) -> bool {
    &&& a.vault_bump == b.vault_bump
    &&& a.initializer_key == b.initializer_key
    &&& a.lock_end_date == b.lock_end_date
    &&& a.freeze_program == b.freeze_program
    &&& a.token_mint_key == b.token_mint_key
}

} // verus!
