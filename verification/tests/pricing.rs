use monkey_staking::{
    emit_price, emit_reward, get_price, AccountKey, ErrorCode, Reward, StakingAccount,
    UserStakingAccount,
};

fn pool(total_pool_shares: u64) -> StakingAccount {
    StakingAccount {
        vault_bump: 7,
        initializer_key: AccountKey { w0: 1, w1: 2, w2: 3, w3: 4 },
        lock_end_date: 0,
        total_pool_shares,
        freeze_program: false,
        token_mint_key: AccountKey { w0: 5, w1: 6, w2: 7, w3: 8 },
    }
}

#[test]
fn an_empty_pool_prices_at_zero() {
    let (e9, display) = get_price(12345, &pool(0)).unwrap();
    assert_eq!(e9, 0);
    assert_eq!(display.as_str(), "0");
}

#[test]
fn the_first_deposit_prices_at_one() {
    let (e9, display) = get_price(1000, &pool(1000)).unwrap();
    assert_eq!(e9, 1_000_000_000);
    assert_eq!(display.as_str(), "1");
}

#[test]
fn the_price_truncates_at_nine_fractional_digits() {
    let (e9, display) = get_price(1, &pool(3)).unwrap();
    assert_eq!(e9, 333_333_333);
    assert_eq!(display.as_str(), "0.333333333");
}

#[test]
fn the_display_trims_trailing_zeros() {
    let (e9, display) = get_price(3, &pool(2)).unwrap();
    assert_eq!(e9, 1_500_000_000);
    assert_eq!(display.as_str(), "1.5");
}

#[test]
fn a_whole_price_has_no_point() {
    let (e9, display) = get_price(7000, &pool(1000)).unwrap();
    assert_eq!(e9, 7_000_000_000);
    assert_eq!(display.as_str(), "7");
}

#[test]
fn a_tiny_fraction_keeps_its_leading_zeros() {
    let (e9, display) = get_price(1, &pool(1_000_000_000)).unwrap();
    assert_eq!(e9, 1);
    assert_eq!(display.as_str(), "0.000000001");
}

#[test]
fn a_large_price_renders_every_digit() {
    let (e9, display) = get_price(18_000_000_002, &pool(4)).unwrap();
    assert_eq!(e9, 4_500_000_000_500_000_000);
    assert_eq!(display.as_str(), "4500000000.5");
}

#[test]
fn an_unrepresentable_price_overflows() {
    assert_eq!(get_price(u64::MAX, &pool(1)), Err(ErrorCode::ArithmeticOverflow));
}

#[test]
fn emit_price_carries_the_same_pair() {
    let p = emit_price(1000, &pool(1000)).unwrap();
    assert_eq!(p.token_per_pool_share_e9, 1_000_000_000);
    assert_eq!(p.token_per_pool_share.as_str(), "1");
}

#[test]
fn the_reward_is_the_value_above_the_cost_basis() {
    let u = UserStakingAccount { amount: 50, pool_shares_amount: 25 };
    let r = emit_reward(&u, 300, 100).unwrap();
    assert_eq!(r, Reward { deposit: 50, reward: 25 });
}

#[test]
fn the_reward_query_fails_on_an_empty_pool() {
    let u = UserStakingAccount { amount: 0, pool_shares_amount: 0 };
    assert_eq!(emit_reward(&u, 300, 0), Err(ErrorCode::ArithmeticOverflow));
}

#[test]
fn a_value_below_the_cost_basis_is_surfaced_as_underflow() {
    let u = UserStakingAccount { amount: 100, pool_shares_amount: 10 };
    assert_eq!(emit_reward(&u, 100, 100), Err(ErrorCode::ArithmeticUnderflow));
}

#[test]
fn an_unrepresentable_reward_overflows() {
    let u = UserStakingAccount { amount: 0, pool_shares_amount: u64::MAX };
    assert_eq!(emit_reward(&u, u64::MAX, 1), Err(ErrorCode::ArithmeticOverflow));
}
