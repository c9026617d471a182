use monkey_staking::{
    finalize_cost_basis, initialize, stake, toggle_freeze_program, unstake, update_admin,
    update_lock_end_date, AccountKey, ErrorCode, StakingAccount, UserStakingAccount,
};

fn key(tag: u64) -> AccountKey {
    AccountKey { w0: tag, w1: tag + 1, w2: tag + 2, w3: tag + 3 }
}

fn pool(total_pool_shares: u64, frozen: bool, lock_end_date: u64) -> StakingAccount {
    StakingAccount {
        vault_bump: 7,
        initializer_key: key(100),
        lock_end_date,
        total_pool_shares,
        freeze_program: frozen,
        token_mint_key: key(200),
    }
}

fn fresh_user() -> UserStakingAccount {
    UserStakingAccount { amount: 0, pool_shares_amount: 0 }
}

#[test]
fn initialize_writes_the_record() {
    let s = initialize(5, 5, 9, key(1), 1700000000, key(2)).unwrap();
    assert_eq!(s.vault_bump, 9);
    assert_eq!(s.initializer_key, key(1));
    assert_eq!(s.lock_end_date, 1700000000);
    assert_eq!(s.total_pool_shares, 0);
    assert!(!s.freeze_program);
    assert_eq!(s.token_mint_key, key(2));
}

#[test]
fn initialize_rejects_a_wrong_bump() {
    let r = initialize(5, 6, 9, key(1), 0, key(2));
    assert_eq!(r, Err(ErrorCode::IncorrectStakingAccountBump));
}

#[test]
fn admin_ops_require_the_admin() {
    let mut s = pool(0, false, 10);
    assert_eq!(update_lock_end_date(&mut s, key(999), 20), Err(ErrorCode::Forbidden));
    assert_eq!(update_admin(&mut s, key(999), key(3)), Err(ErrorCode::Forbidden));
    assert_eq!(toggle_freeze_program(&mut s, key(999), true), Err(ErrorCode::Forbidden));
    assert_eq!(s, pool(0, false, 10));
}

#[test]
fn admin_ops_apply_for_the_admin() {
    let mut s = pool(0, false, 10);
    let admin = s.initializer_key;
    assert_eq!(update_lock_end_date(&mut s, admin, 20), Ok(()));
    assert_eq!(s.lock_end_date, 20);
    assert_eq!(toggle_freeze_program(&mut s, admin, true), Ok(()));
    assert!(s.freeze_program);
    assert_eq!(toggle_freeze_program(&mut s, admin, false), Ok(()));
    assert!(!s.freeze_program);
    assert_eq!(update_admin(&mut s, admin, key(3)), Ok(()));
    assert_eq!(s.initializer_key, key(3));
    assert_eq!(update_lock_end_date(&mut s, admin, 30), Err(ErrorCode::Forbidden));
}

#[test]
fn first_deposit_mints_one_for_one() {
    let s = pool(0, false, 0);
    let u = fresh_user();
    let e = stake(&s, &u, 0, 1000).unwrap();
    assert_eq!(e.minted, 1000);
    assert_eq!(e.staking.total_pool_shares, 1000);
    assert_eq!(e.user.pool_shares_amount, 1000);
    assert_eq!(e.user.amount, 1000);
}

#[test]
fn proportional_mint_truncates() {
    let s = pool(100, false, 0);
    let u = fresh_user();
    let e = stake(&s, &u, 200, 50).unwrap();
    assert_eq!(e.minted, 25);
    assert_eq!(e.staking.total_pool_shares, 125);
    assert_eq!(e.user.pool_shares_amount, 25);
    assert_eq!(e.user.amount, 50);
}

#[test]
fn stake_is_refused_while_frozen() {
    let s = pool(100, true, 0);
    let u = fresh_user();
    assert_eq!(stake(&s, &u, 200, 50), Err(ErrorCode::ProgramIsFrozen));
}

#[test]
fn stake_surfaces_counter_overflow() {
    let s = pool(u64::MAX, false, 0);
    let u = fresh_user();
    assert_eq!(stake(&s, &u, 0, 1), Err(ErrorCode::ArithmeticOverflow));
}

#[test]
fn stake_surfaces_mint_overflow() {
    let s = pool(u64::MAX, false, 0);
    let u = fresh_user();
    assert_eq!(stake(&s, &u, 1, u64::MAX), Err(ErrorCode::ArithmeticOverflow));
}

#[test]
fn proportional_redeem_pays_off_the_pre_burn_snapshot() {
    let s = pool(125, false, 10);
    let u = UserStakingAccount { amount: 50, pool_shares_amount: 125 };
    let e = unstake(&s, &u, 250, 10, 25).unwrap();
    assert_eq!(e.payout, 50);
    assert_eq!(e.staking.total_pool_shares, 100);
    assert_eq!(e.user.pool_shares_amount, 100);
    assert_eq!(e.user.amount, 50);
}

#[test]
fn unstake_is_refused_before_the_lock_ends() {
    let s = pool(125, false, 1000);
    let u = UserStakingAccount { amount: 50, pool_shares_amount: 125 };
    assert_eq!(unstake(&s, &u, 250, 999, 25), Err(ErrorCode::NotExceedLockEndDate));
}

#[test]
fn unstake_is_refused_while_frozen() {
    let s = pool(125, true, 0);
    let u = UserStakingAccount { amount: 50, pool_shares_amount: 125 };
    assert_eq!(unstake(&s, &u, 250, 10, 25), Err(ErrorCode::ProgramIsFrozen));
}

#[test]
fn unstake_needs_enough_shares() {
    let s = pool(125, false, 0);
    let u = UserStakingAccount { amount: 50, pool_shares_amount: 20 };
    assert_eq!(unstake(&s, &u, 250, 10, 25), Err(ErrorCode::NotEnoughShares));
}

#[test]
fn unstake_surfaces_a_broken_pool_total() {
    let s = pool(3, false, 0);
    let u = UserStakingAccount { amount: 0, pool_shares_amount: 10 };
    assert_eq!(unstake(&s, &u, 250, 10, 5), Err(ErrorCode::ArithmeticUnderflow));
}

#[test]
fn unstake_of_nothing_on_an_empty_pool_fails() {
    let s = pool(0, false, 0);
    let u = fresh_user();
    assert_eq!(unstake(&s, &u, 0, 10, 0), Err(ErrorCode::ArithmeticOverflow));
}

#[test]
fn cost_basis_drops_to_zero_when_the_pool_empties() {
    let mut u = UserStakingAccount { amount: 40, pool_shares_amount: 10 };
    assert_eq!(finalize_cost_basis(&mut u, 0, 5), Ok(()));
    assert_eq!(u.amount, 0);
    assert_eq!(u.pool_shares_amount, 10);
    let mut v = UserStakingAccount { amount: 40, pool_shares_amount: 10 };
    assert_eq!(finalize_cost_basis(&mut v, 5, 0), Ok(()));
    assert_eq!(v.amount, 0);
}

#[test]
fn cost_basis_is_clamped_down_to_the_remaining_value() {
    let mut u = UserStakingAccount { amount: 100, pool_shares_amount: 10 };
    assert_eq!(finalize_cost_basis(&mut u, 90, 30), Ok(()));
    assert_eq!(u.amount, 30);
}

#[test]
fn cost_basis_is_never_raised_by_a_redemption() {
    let mut u = UserStakingAccount { amount: 10, pool_shares_amount: 10 };
    assert_eq!(finalize_cost_basis(&mut u, 900, 30), Ok(()));
    assert_eq!(u.amount, 10);
}

#[test]
fn cost_basis_overflow_leaves_the_record_untouched() {
    let mut u = UserStakingAccount { amount: 7, pool_shares_amount: u64::MAX };
    assert_eq!(finalize_cost_basis(&mut u, 2, 1), Err(ErrorCode::ArithmeticOverflow));
    assert_eq!(u.amount, 7);
    assert_eq!(u.pool_shares_amount, u64::MAX);
}

#[test]
fn cost_basis_never_grows_across_a_redemption_run() {
    let s = pool(1000, false, 0);
    let mut u = UserStakingAccount { amount: 600, pool_shares_amount: 600 };
    let mut staking = s;
    let mut reserve: u64 = 1200;
    let mut last_basis = u.amount;
    for _ in 0..3 {
        let e = unstake(&staking, &u, reserve, 10, 100).unwrap();
        staking = e.staking;
        u = e.user;
        reserve -= e.payout;
        finalize_cost_basis(&mut u, reserve, staking.total_pool_shares).unwrap();
        assert!(u.amount <= last_basis);
        last_basis = u.amount;
    }
}

#[test]
fn share_sum_matches_the_pool_total_across_operations() {
    let mut staking = pool(0, false, 0);
    let mut users = [fresh_user(), fresh_user(), fresh_user()];
    let mut reserve: u64 = 0;
    let deposits = [1000u64, 300, 4577];
    for (i, amount) in deposits.iter().enumerate() {
        let e = stake(&staking, &users[i], reserve, *amount).unwrap();
        staking = e.staking;
        users[i] = e.user;
        reserve += amount;
    }
    let total: u64 = users.iter().map(|u| u.pool_shares_amount).sum();
    assert_eq!(staking.total_pool_shares, total);
    let e = unstake(&staking, &users[1], reserve, 10, 150).unwrap();
    staking = e.staking;
    users[1] = e.user;
    let total: u64 = users.iter().map(|u| u.pool_shares_amount).sum();
    assert_eq!(staking.total_pool_shares, total);
}
