use lp_pool::{Errors, Fee, LpPool, LpTokenAmount, Price, StakedTokenAmount, TokenAmount};

fn story_pool() -> LpPool {
    LpPool::init(
        Price(1_500_000),
        Fee(1_000),
        Fee(90_000),
        TokenAmount(90_000_000),
    )
    .unwrap()
}

#[test]
fn bootstrap_mint_is_one_to_one() {
    let pool = story_pool();
    let (pool, minted) = pool.add_liquidity(TokenAmount(100_000_000_000)).unwrap();
    assert_eq!(minted.0, 100_000_000_000);
    assert_eq!(pool.token_amount.0, 100_000_000_000);
    assert_eq!(pool.lp_token_amount.0, 100_000_000_000);
    assert_eq!(pool.st_token_amount.0, 0);

    // The 1:1 bootstrap does not depend on the price or fee parameters.
    let other = LpPool::init(Price(42), Fee(0), Fee(999_999), TokenAmount(7)).unwrap();
    let (_, minted) = other.add_liquidity(TokenAmount(123_456_789)).unwrap();
    assert_eq!(minted.0, 123_456_789);
}

#[test]
fn bootstrap_mint_of_zero_deposit() {
    let pool = story_pool();
    let (pool, minted) = pool.add_liquidity(TokenAmount(0)).unwrap();
    assert_eq!(minted.0, 0);
    assert_eq!(pool.token_amount.0, 0);
    assert_eq!(pool.lp_token_amount.0, 0);
}

#[test]
fn bootstrap_mint_at_largest_amount() {
    let pool = story_pool();
    let (pool, minted) = pool.add_liquidity(TokenAmount(u64::MAX)).unwrap();
    assert_eq!(minted.0, u64::MAX);
    assert_eq!(pool.token_amount.0, u64::MAX);
}

#[test]
fn swap_above_target_pays_minimal_fee() {
    let pool = story_pool();
    let (pool, _) = pool.add_liquidity(TokenAmount(100_000_000_000)).unwrap();
    // Gross: 6.0 staked * 1.5 = 9.0 underlying; post-swap reserve stays above
    // the target, so the fee rate is min_fee = 0.1% and 0.009 is withheld.
    let (pool, net) = pool.swap(StakedTokenAmount(6_000_000)).unwrap();
    assert_eq!(net.0, 8_991_000);
    assert_eq!(pool.token_amount.0, 99_991_000_000);
    assert_eq!(pool.st_token_amount.0, 6_000_000);
    assert_eq!(pool.lp_token_amount.0, 100_000_000_000);
}

#[test]
fn later_deposit_follows_reserve_ratio() {
    let pool = story_pool();
    let (pool, _) = pool.add_liquidity(TokenAmount(100_000_000_000)).unwrap();
    let (pool, _) = pool.swap(StakedTokenAmount(6_000_000)).unwrap();
    // 10_000_000_000 * 100_000_000_000 / 99_991_000_000, truncated.
    let (pool, minted) = pool.add_liquidity(TokenAmount(10_000_000_000)).unwrap();
    assert_eq!(minted.0, 10_000_900_081);
    assert_eq!(pool.token_amount.0, 109_991_000_000);
    assert_eq!(pool.lp_token_amount.0, 110_000_900_081);

    // A second swap, still above the target, keeps the minimal fee rate.
    let (pool, net) = pool.swap(StakedTokenAmount(30_000_000)).unwrap();
    assert_eq!(net.0, 44_955_000);
    assert_eq!(pool.token_amount.0, 109_946_000_000);
    assert_eq!(pool.st_token_amount.0, 36_000_000);
}

#[test]
fn swap_emptying_reserve_pays_maximal_fee() {
    let pool = LpPool::init(
        Price(1_000_000),
        Fee(1_000),
        Fee(90_000),
        TokenAmount(90_000_000),
    )
    .unwrap();
    let (pool, _) = pool.add_liquidity(TokenAmount(5_000_000)).unwrap();
    // Gross equals the whole reserve, so the post-swap reserve is zero and
    // the fee rate is exactly max_fee = 9%.
    let (pool, net) = pool.swap(StakedTokenAmount(5_000_000)).unwrap();
    assert_eq!(net.0, 4_550_000);
    assert_eq!(pool.token_amount.0, 0);
    assert_eq!(pool.st_token_amount.0, 5_000_000);
}

#[test]
fn swap_below_target_interpolates_fee() {
    let pool = LpPool::init(
        Price(1_000_000),
        Fee(1_000),
        Fee(90_000),
        TokenAmount(10_000_000),
    )
    .unwrap();
    let (pool, _) = pool.add_liquidity(TokenAmount(10_000_000)).unwrap();
    // Post-swap reserve is half the target: rate = 90_000 - 89_000/2 = 45_500,
    // so 5_000_000 gross pays a 227_500 fee.
    let (pool, net) = pool.swap(StakedTokenAmount(5_000_000)).unwrap();
    assert_eq!(net.0, 4_772_500);
    assert_eq!(pool.token_amount.0, 5_000_000);
}

#[test]
fn swap_landing_exactly_on_target_pays_minimal_fee() {
    let pool = LpPool::init(
        Price(1_000_000),
        Fee(1_000),
        Fee(90_000),
        TokenAmount(5_000_000),
    )
    .unwrap();
    let (pool, _) = pool.add_liquidity(TokenAmount(10_000_000)).unwrap();
    let (_, net) = pool.swap(StakedTokenAmount(5_000_000)).unwrap();
    assert_eq!(net.0, 4_995_000);
}

#[test]
fn swap_of_zero_staked_tokens() {
    let pool = story_pool();
    let (pool, _) = pool.add_liquidity(TokenAmount(1_000_000)).unwrap();
    let (pool, net) = pool.swap(StakedTokenAmount(0)).unwrap();
    assert_eq!(net.0, 0);
    assert_eq!(pool.token_amount.0, 1_000_000);
    assert_eq!(pool.st_token_amount.0, 0);
}

#[test]
fn swap_beyond_reserve_fails() {
    let pool = LpPool::init(
        Price(2_000_000),
        Fee(1_000),
        Fee(90_000),
        TokenAmount(90_000_000),
    )
    .unwrap();
    let (pool, _) = pool.add_liquidity(TokenAmount(1_000_000)).unwrap();
    // Gross = 2_000_000 exceeds the 1_000_000 reserve.
    let r = pool.swap(StakedTokenAmount(1_000_000));
    assert_eq!(r.unwrap_err(), Errors::InsufficientLiquidity);
}

#[test]
fn remove_beyond_supply_fails() {
    let pool = story_pool();
    let (pool, _) = pool.add_liquidity(TokenAmount(100_000_000_000)).unwrap();
    let r = pool.remove_liquidity(LpTokenAmount(100_000_000_001));
    assert_eq!(r.unwrap_err(), Errors::InsufficientLiquidity);
}

#[test]
fn full_redemption_pays_out_staked_reserve() {
    let pool = LpPool::init(
        Price(1_000_000),
        Fee(1_000),
        Fee(90_000),
        TokenAmount(1_000_000),
    )
    .unwrap();
    let (pool, _) = pool.add_liquidity(TokenAmount(1)).unwrap();
    // Emptying the reserve: fee is max_fee, but 9% of 1 truncates to zero.
    let (pool, net) = pool.swap(StakedTokenAmount(1)).unwrap();
    assert_eq!(net.0, 1);
    assert_eq!(pool.token_amount.0, 0);
    assert_eq!(pool.st_token_amount.0, 1);
    // Burning the full supply: proportion is 1, so the staked leg pays all.
    let (pool, tokens, staked) = pool.remove_liquidity(LpTokenAmount(1)).unwrap();
    assert_eq!(tokens.0, 0);
    assert_eq!(staked.0, 1);
    assert_eq!(pool.token_amount.0, 0);
    assert_eq!(pool.st_token_amount.0, 0);
    assert_eq!(pool.lp_token_amount.0, 0);
}

#[test]
fn partial_redemption_scales_reserve_by_share_count() {
    let pool = story_pool();
    let (pool, _) = pool.add_liquidity(TokenAmount(5)).unwrap();
    // The underlying leg pays reserve * shares = 5 * 1, not a fifth of the
    // reserve; the staked leg's whole-number proportion truncates to zero.
    let (pool, tokens, staked) = pool.remove_liquidity(LpTokenAmount(1)).unwrap();
    assert_eq!(tokens.0, 5);
    assert_eq!(staked.0, 0);
    assert_eq!(pool.token_amount.0, 0);
    assert_eq!(pool.lp_token_amount.0, 4);
}

#[test]
fn removal_of_zero_shares_changes_nothing() {
    let pool = story_pool();
    let (pool, _) = pool.add_liquidity(TokenAmount(5)).unwrap();
    let (pool, tokens, staked) = pool.remove_liquidity(LpTokenAmount(0)).unwrap();
    assert_eq!(tokens.0, 0);
    assert_eq!(staked.0, 0);
    assert_eq!(pool.token_amount.0, 5);
    assert_eq!(pool.lp_token_amount.0, 5);
}

#[test]
fn bootstrap_round_trip_of_one_unit() {
    let pool = story_pool();
    let (pool, minted) = pool.add_liquidity(TokenAmount(1)).unwrap();
    assert_eq!(minted.0, 1);
    let (pool, tokens, staked) = pool.remove_liquidity(minted).unwrap();
    assert_eq!(tokens.0, 1);
    assert_eq!(staked.0, 0);
    assert_eq!(pool.token_amount.0, 0);
    assert_eq!(pool.lp_token_amount.0, 0);
}

#[test]
fn deposit_after_swap_truncates_minted_shares() {
    let pool = LpPool::init(Price(1_000_000), Fee(1_000), Fee(90_000), TokenAmount(10)).unwrap();
    let (pool, _) = pool.add_liquidity(TokenAmount(1_000_000)).unwrap();
    let (pool, net) = pool.swap(StakedTokenAmount(100_000)).unwrap();
    assert_eq!(net.0, 99_900);
    assert_eq!(pool.token_amount.0, 900_000);
    // 123_456 * 1_000_000 / 900_000 truncates to 137_173.
    let (pool, minted) = pool.add_liquidity(TokenAmount(123_456)).unwrap();
    assert_eq!(minted.0, 137_173);
    assert_eq!(pool.token_amount.0, 1_023_456);
    assert_eq!(pool.lp_token_amount.0, 1_137_173);
}

#[test]
fn amount_arithmetic_stays_in_unit() {
    let a = TokenAmount(2).plus(TokenAmount(3));
    assert_eq!(a.0, 5);
    assert_eq!(a.minus(TokenAmount(5)).0, 0);
    let s = StakedTokenAmount(7).plus(StakedTokenAmount(1));
    assert_eq!(s.minus(StakedTokenAmount(8)).0, 0);
    let l = LpTokenAmount(10).minus(LpTokenAmount(4));
    assert_eq!(l.plus(LpTokenAmount(1)).0, 7);
}
