//! A single-sided automated liquidity pool that exchanges a staked token for
//! an underlying token at a fixed, pool-set price, charging a dynamic fee that
//! rises as the underlying reserve drops below a liquidity target.
//!
//! Liquidity providers deposit the underlying token and receive pool shares;
//! stakers redeem staked tokens for the underlying token through `swap`;
//! providers later redeem their shares for a claim on both remaining reserves.
//! Every operation consumes the prior pool value and returns a new one, so a
//! pool is never mutated in place. All arithmetic is fixed-point over 64-bit
//! integer amounts, with every multiply-then-divide widened to 128 bits before
//! a single truncating division, and every subtraction proven free of
//! underflow, so no balance can ever wrap below zero.

use vstd::prelude::*;

verus! {

/// Fixed-point scale: `1_000_000` stands for a price of 1.0 or a fee of 100%.
pub const SCALE: u64 = 1_000_000;

/// A quantity of the underlying (base) token, in its smallest unit.
#[derive(Clone, Copy, Debug, PartialEq, Eq)]
pub struct TokenAmount(pub u64);

/// A quantity of the staked token accepted by swaps, in its smallest unit.
#[derive(Clone, Copy, Debug, PartialEq, Eq)]
pub struct StakedTokenAmount(pub u64);

/// A quantity of pool shares, in its smallest unit.
#[derive(Clone, Copy, Debug, PartialEq, Eq)]
pub struct LpTokenAmount(pub u64);

/// Exchange rate from staked token to underlying token, fixed-point with
/// `SCALE` as 1.0.
#[derive(Clone, Copy, Debug, PartialEq, Eq)]
pub struct Price(pub u64);

/// A fee rate, fixed-point with `SCALE` as 100%.
#[derive(Clone, Copy, Debug, PartialEq, Eq)]
pub struct Fee(pub u64);

/// Errors surfaced to callers of the pool operations.
#[derive(Clone, Copy, Debug, PartialEq, Eq)]
pub enum Errors {
    /// A withdrawal asked for more shares than are outstanding, or a swap's
    /// gross underlying value exceeds the pool's reserve.
    InsufficientLiquidity,
    /// Reserved for future input validation; no current operation returns it.
    InvalidAmount,
}

impl TokenAmount {
    /// Addition within the unit; the sum must fit the 64-bit amount.
    pub fn plus(self, other: TokenAmount) -> (r: TokenAmount)
        requires
            self.0 + other.0 <= u64::MAX,
        ensures
            r.0 == self.0 + other.0,
    {
        TokenAmount(self.0 + other.0)
    }

    /// Subtraction within the unit. An underflow would signal a broken pool
    /// invariant, never a normal caller error, so the difference is required
    /// to be non-negative rather than silently wrapped.
    pub fn minus(self, other: TokenAmount) -> (r: TokenAmount)
        requires
            other.0 <= self.0,
        ensures
            r.0 == self.0 - other.0,
    {
        TokenAmount(self.0 - other.0)
    }
}

impl StakedTokenAmount {
    /// Addition within the unit; the sum must fit the 64-bit amount.
    pub fn plus(self, other: StakedTokenAmount) -> (r: StakedTokenAmount)
        requires
            self.0 + other.0 <= u64::MAX,
        ensures
            r.0 == self.0 + other.0,
    {
        StakedTokenAmount(self.0 + other.0)
    }

    /// Subtraction within the unit, required not to underflow.
    pub fn minus(self, other: StakedTokenAmount) -> (r: StakedTokenAmount)
        requires
            other.0 <= self.0,
        ensures
            r.0 == self.0 - other.0,
    {
        StakedTokenAmount(self.0 - other.0)
    }
}

impl LpTokenAmount {
    /// Addition within the unit; the sum must fit the 64-bit amount.
    pub fn plus(self, other: LpTokenAmount) -> (r: LpTokenAmount)
        requires
            self.0 + other.0 <= u64::MAX,
        ensures
            r.0 == self.0 + other.0,
    {
        LpTokenAmount(self.0 + other.0)
    }

    /// Subtraction within the unit, required not to underflow.
    pub fn minus(self, other: LpTokenAmount) -> (r: LpTokenAmount)
        requires
            other.0 <= self.0,
        ensures
            r.0 == self.0 - other.0,
    {
        LpTokenAmount(self.0 - other.0)
    }
}

/// The pool: three reserves plus the immutable pricing parameters. Amounts
/// are unsigned machine integers, so every reachable balance is non-negative
/// by construction, and each operation proves that no internal subtraction
/// can underflow.
#[derive(Clone, Debug)]
pub struct LpPool {
    /// Fixed exchange rate, set at construction, immutable thereafter.
    pub price: Price,
    /// Underlying token reserve held by the pool.
    pub token_amount: TokenAmount,
    /// Staked token reserve accumulated from swaps.
    pub st_token_amount: StakedTokenAmount,
    /// Total outstanding pool shares.
    pub lp_token_amount: LpTokenAmount,
    /// Reserve level at or above which the fee is minimal.
    pub liquidity_target: TokenAmount,
    /// Fee rate applied when the reserve is at or above the target.
    pub min_fee: Fee,
    /// Fee rate applied when the reserve is at zero.
    pub max_fee: Fee,
}

/// Shares minted for depositing `deposit` underlying tokens: one share per
/// token on the first deposit, afterwards scaled by outstanding shares per
/// unit of the underlying reserve, truncating toward zero. The staked-token
/// reserve does not enter this formula.
pub open spec fn spec_minted(pool: LpPool, deposit: u64) -> int {
    if pool.lp_token_amount.0 == 0 {
        deposit as int
    } else {
        deposit * pool.lp_token_amount.0 / (pool.token_amount.0 as int)
    }
}

/// Gross underlying value of `staked` staked tokens at the pool's price.
pub open spec fn spec_gross(pool: LpPool, staked: u64) -> int {
    staked * pool.price.0 / (SCALE as int)
}

/// The fee curve: the minimum rate at or above the liquidity target, rising
/// linearly (with truncating division) to the maximum rate as the reserve
/// falls to zero.
pub open spec fn spec_fee_rate(min_fee: int, max_fee: int, liquidity_target: int, reserve_after: int) -> int {
    if reserve_after >= liquidity_target {
        min_fee
    } else {
        max_fee - (max_fee - min_fee) * reserve_after / liquidity_target
    }
}

/// Underlying reserve left once a swap's gross amount is taken out; the fee
/// curve is evaluated at this level.
pub open spec fn spec_post_swap_reserve(pool: LpPool, staked: u64) -> int {
    pool.token_amount.0 - spec_gross(pool, staked)
}

/// Fee rate a swap of `staked` pays: the fee curve at the post-swap reserve.
pub open spec fn spec_swap_fee_rate(pool: LpPool, staked: u64) -> int {
    spec_fee_rate(
        pool.min_fee.0 as int,
        pool.max_fee.0 as int,
        pool.liquidity_target.0 as int,
        spec_post_swap_reserve(pool, staked),
    )
}

/// Fee charged on a swap: the gross amount scaled by the fee rate.
pub open spec fn spec_swap_fee(pool: LpPool, staked: u64) -> int {
    spec_gross(pool, staked) * spec_swap_fee_rate(pool, staked) / (SCALE as int)
}

/// Net underlying amount a swap pays out: gross minus the fee.
pub open spec fn spec_net(pool: LpPool, staked: u64) -> int {
    spec_gross(pool, staked) - spec_swap_fee(pool, staked)
}

/// Underlying tokens paid out for burning `shares`: the reserve scaled by the
/// absolute share count. Note that this is not a proportion of the supply;
/// see `remove_liquidity`.
pub open spec fn spec_tokens_out(pool: LpPool, shares: u64) -> int {
    pool.token_amount.0 * shares
}

/// Whole-number proportion of the supply that `shares` is, by integer
/// division on the raw counts: 0 for any partial redemption, 1 for a
/// redemption of the full outstanding supply.
pub open spec fn spec_share_proportion(pool: LpPool, shares: u64) -> int {
    shares as int / (pool.lp_token_amount.0 as int)
}

/// Staked tokens paid out for burning `shares`: the staked reserve scaled by
/// the 0-or-1 whole-number proportion.
pub open spec fn spec_staked_out(pool: LpPool, shares: u64) -> int {
    pool.st_token_amount.0 * spec_share_proportion(pool, shares)
}

/// The pool `add_liquidity` leaves behind: the deposit joins the reserve and
/// the minted shares join the supply.
pub open spec fn spec_pool_after_add(pool: LpPool, deposit: u64) -> LpPool {
    LpPool {
        token_amount: TokenAmount((pool.token_amount.0 + deposit) as u64),
        lp_token_amount: LpTokenAmount((pool.lp_token_amount.0 + spec_minted(pool, deposit)) as u64),
        ..pool
    }
}

/// The pool `remove_liquidity` leaves behind: each reserve drops by the
/// amount withdrawn and the burned shares leave the supply.
pub open spec fn spec_pool_after_remove(pool: LpPool, shares: u64) -> LpPool {
    LpPool {
        token_amount: TokenAmount((pool.token_amount.0 - spec_tokens_out(pool, shares)) as u64),
        st_token_amount: StakedTokenAmount((pool.st_token_amount.0 - spec_staked_out(pool, shares)) as u64),
        lp_token_amount: LpTokenAmount((pool.lp_token_amount.0 - shares) as u64),
        ..pool
    }
}

/// The pool `swap` leaves behind: the reserve is set to the post-swap level
/// (the fee is kept inside the pool) and the full staked deposit joins the
/// staked reserve.
pub open spec fn spec_pool_after_swap(pool: LpPool, staked: u64) -> LpPool {
    LpPool {
        token_amount: TokenAmount(spec_post_swap_reserve(pool, staked) as u64),
        st_token_amount: StakedTokenAmount((pool.st_token_amount.0 + staked) as u64),
        ..pool
    }
}

impl LpPool {
    /// Creates a pool with all three balances at zero and the given immutable
    /// parameters. Never fails: parameter sanity (such as a minimum fee not
    /// above the maximum) is assumed, not validated.
    pub fn init(price: Price, min_fee: Fee, max_fee: Fee, liquidity_target: TokenAmount) -> (r: Result<LpPool, Errors>)
        ensures
            r matches Ok(pool) && pool.price == price && pool.token_amount.0 == 0
                && pool.st_token_amount.0 == 0 && pool.lp_token_amount.0 == 0
                && pool.liquidity_target == liquidity_target && pool.min_fee == min_fee
                && pool.max_fee == max_fee,
    {
        Ok(LpPool {
            price,
            token_amount: TokenAmount(0),
            st_token_amount: StakedTokenAmount(0),
            lp_token_amount: LpTokenAmount(0),
            liquidity_target,
            min_fee,
            max_fee,
        })
    }

    /// Deposits `token_amount` underlying tokens and mints pool shares: one
    /// for one on the first deposit, otherwise `deposit * shares / reserve`
    /// with a widened intermediate product and truncating division. A zero
    /// deposit is legal and mints zero shares. Never fails; the preconditions
    /// only keep the 64-bit amounts from overflowing and rule out the
    /// share-supply-without-reserve state that the formula cannot price.
    pub fn add_liquidity(self, token_amount: TokenAmount) -> (r: Result<(LpPool, LpTokenAmount), Errors>)
        requires
            self.lp_token_amount.0 > 0 ==> self.token_amount.0 > 0,
            self.token_amount.0 + token_amount.0 <= u64::MAX,
            spec_minted(self, token_amount.0) <= u64::MAX,
            self.lp_token_amount.0 + spec_minted(self, token_amount.0) <= u64::MAX,
        ensures
            r matches Ok((pool, minted)) && pool == spec_pool_after_add(self, token_amount.0)
                && minted.0 == spec_minted(self, token_amount.0),
    {
        let new_token_amount = self.token_amount.plus(token_amount);
        let lp_tokens_minted: u64 = if self.lp_token_amount.0 == 0 {
            token_amount.0
        } else {
            proof {
                vstd::arithmetic::mul::lemma_mul_upper_bound(
                    token_amount.0 as int,
                    u64::MAX as int,
                    self.lp_token_amount.0 as int,
                    u64::MAX as int,
                );
            }
            let wide: u128 = (token_amount.0 as u128) * (self.lp_token_amount.0 as u128);
            let quotient: u128 = wide / (self.token_amount.0 as u128);
            quotient as u64
        };
        let new_lp_token_amount = self.lp_token_amount.plus(LpTokenAmount(lp_tokens_minted));

        let new_pool = LpPool {
            token_amount: new_token_amount,
            lp_token_amount: new_lp_token_amount,
            ..self
        };

        Ok((new_pool, LpTokenAmount(lp_tokens_minted)))
    }

    /// Burns `lp_token_amount` shares. Fails with `InsufficientLiquidity` if
    /// and only if more shares are asked for than are outstanding. On success
    /// it pays out the reserve scaled by the absolute share count (not a
    /// proportion of the supply), and the staked reserve scaled by the
    /// 0-or-1 whole-number share of the supply, so partial redemptions are
    /// not proportional to the caller's stake. The preconditions rule out
    /// the two fault states: dividing by a zero share supply when zero shares
    /// are burned, and an underlying payout larger than the reserve, which
    /// would underflow and signals a broken invariant rather than a caller
    /// error.
    pub fn remove_liquidity(self, lp_token_amount: LpTokenAmount) -> (r: Result<(LpPool, TokenAmount, StakedTokenAmount), Errors>)
        requires
            self.lp_token_amount.0 == 0 ==> lp_token_amount.0 > 0,
            lp_token_amount.0 <= self.lp_token_amount.0
                ==> spec_tokens_out(self, lp_token_amount.0) <= self.token_amount.0,
        ensures
            r is Err <==> lp_token_amount.0 > self.lp_token_amount.0,
            r matches Err(e) ==> e == Errors::InsufficientLiquidity,
            r matches Ok((pool, tokens_out, staked_out)) ==> pool == spec_pool_after_remove(self, lp_token_amount.0)
                && tokens_out.0 == spec_tokens_out(self, lp_token_amount.0)
                && staked_out.0 == spec_staked_out(self, lp_token_amount.0),
    {
        if lp_token_amount.0 > self.lp_token_amount.0 {
            return Err(Errors::InsufficientLiquidity);
        }
        proof {
            let shares = lp_token_amount.0 as int;
            let supply = self.lp_token_amount.0 as int;
            if shares == supply {
                vstd::arithmetic::div_mod::lemma_div_by_self(supply);
            } else {
                vstd::arithmetic::div_mod::lemma_basic_div(shares, supply);
            }
            vstd::arithmetic::mul::lemma_mul_upper_bound(
                self.token_amount.0 as int,
                u64::MAX as int,
                shares,
                u64::MAX as int,
            );
        }
        let lp_token_proportion: u128 = (lp_token_amount.0 as u128) / (self.lp_token_amount.0 as u128);
        proof {
            assert(lp_token_proportion == 0 || lp_token_proportion == 1);
            vstd::arithmetic::mul::lemma_mul_inequality(
                lp_token_proportion as int,
                1,
                self.st_token_amount.0 as int,
            );
        }

        let token_withdrawn = TokenAmount(((self.token_amount.0 as u128) * (lp_token_amount.0 as u128)) as u64);
        let staked_token_withdrawn = StakedTokenAmount(((self.st_token_amount.0 as u128) * lp_token_proportion) as u64);

        let new_token_amount = self.token_amount.minus(token_withdrawn);
        let new_st_token_amount = self.st_token_amount.minus(staked_token_withdrawn);
        let new_lp_token_amount = self.lp_token_amount.minus(lp_token_amount);

        let new_pool = LpPool {
            token_amount: new_token_amount,
            st_token_amount: new_st_token_amount,
            lp_token_amount: new_lp_token_amount,
            ..self
        };

        Ok((new_pool, token_withdrawn, staked_token_withdrawn))
    }

    /// Exchanges staked tokens for underlying tokens at the pool's fixed
    /// price, minus a dynamic fee. Fails with `InsufficientLiquidity` if and
    /// only if the gross underlying value exceeds the reserve. The fee curve
    /// is evaluated against the reserve as it would stand after honoring the
    /// full gross amount; the fee itself stays in the pool's underlying
    /// reserve. The preconditions keep the widened gross value and the grown
    /// staked reserve within 64 bits and bound the fee by the gross amount,
    /// so that the net payout cannot underflow.
    pub fn swap(self, staked_token_amount: StakedTokenAmount) -> (r: Result<(LpPool, TokenAmount), Errors>)
        requires
            self.min_fee.0 <= self.max_fee.0,
            spec_gross(self, staked_token_amount.0) <= u64::MAX,
            spec_gross(self, staked_token_amount.0) <= self.token_amount.0
                ==> spec_swap_fee(self, staked_token_amount.0) <= spec_gross(self, staked_token_amount.0),
            spec_gross(self, staked_token_amount.0) <= self.token_amount.0
                ==> self.st_token_amount.0 + staked_token_amount.0 <= u64::MAX,
        ensures
            r is Err <==> spec_gross(self, staked_token_amount.0) > self.token_amount.0,
            r matches Err(e) ==> e == Errors::InsufficientLiquidity,
            r matches Ok((pool, net)) ==> pool == spec_pool_after_swap(self, staked_token_amount.0)
                && net.0 == spec_net(self, staked_token_amount.0),
    {
        proof {
            vstd::arithmetic::mul::lemma_mul_upper_bound(
                staked_token_amount.0 as int,
                u64::MAX as int,
                self.price.0 as int,
                u64::MAX as int,
            );
        }
        let gross_wide: u128 = (staked_token_amount.0 as u128) * (self.price.0 as u128) / (SCALE as u128);
        let token_amount: u64 = gross_wide as u64;

        if token_amount > self.token_amount.0 {
            return Err(Errors::InsufficientLiquidity);
        }

        let new_token_balance = self.token_amount.minus(TokenAmount(token_amount));
        let fee = calculate_fee(
            self.max_fee,
            self.min_fee,
            self.liquidity_target,
            new_token_balance,
        );
        proof {
            vstd::arithmetic::mul::lemma_mul_upper_bound(
                token_amount as int,
                u64::MAX as int,
                fee.0 as int,
                u64::MAX as int,
            );
        }
        let fee_amount: u64 = ((token_amount as u128) * (fee.0 as u128) / (SCALE as u128)) as u64;

        let token_amount_net = TokenAmount(token_amount - fee_amount);
        let new_st_token_amount = self.st_token_amount.plus(staked_token_amount);

        let new_pool = LpPool {
            token_amount: new_token_balance,
            st_token_amount: new_st_token_amount,
            ..self
        };

        Ok((new_pool, token_amount_net))
    }
}

/// The shared pricing primitive: evaluates the fee curve at the reserve level
/// `amount_after`. Below the target the linear interpolation needs the
/// minimum fee not to exceed the maximum, hence the precondition; at or above
/// the target no arithmetic is performed at all.
fn calculate_fee(max_fee: Fee, min_fee: Fee, liquidity_target: TokenAmount, amount_after: TokenAmount) -> (f: Fee)
    requires
        amount_after.0 < liquidity_target.0 ==> min_fee.0 <= max_fee.0,
    ensures
        f.0 == spec_fee_rate(min_fee.0 as int, max_fee.0 as int, liquidity_target.0 as int, amount_after.0 as int),
{
    let fee: u64 = if amount_after.0 >= liquidity_target.0 {
        min_fee.0
    } else {
        let fee_diff: u64 = max_fee.0 - min_fee.0;
        proof {
            let diff = fee_diff as int;
            let after = amount_after.0 as int;
            let target = liquidity_target.0 as int;
            vstd::arithmetic::mul::lemma_mul_upper_bound(diff, u64::MAX as int, after, u64::MAX as int);
            vstd::arithmetic::mul::lemma_mul_inequality(after, target, diff);
            vstd::arithmetic::div_mod::lemma_div_is_ordered(after * diff, target * diff, target);
            vstd::arithmetic::div_mod::lemma_div_multiples_vanish(diff, target);
        }
        let fee_adjustment: u64 = ((fee_diff as u128) * (amount_after.0 as u128) / (liquidity_target.0 as u128)) as u64;
        max_fee.0 - fee_adjustment
    };

    Fee(fee)
}

/// Bootstrap law: a deposit on a pool with no outstanding shares mints shares
/// one for one with the deposited tokens, whatever the price, fee parameters
/// or liquidity target.
pub proof fn lemma_bootstrap_mint(pool: LpPool, deposit: u64)
    requires
        pool.lp_token_amount.0 == 0,
    ensures
        spec_minted(pool, deposit) == deposit,
{
}

/// Boundary law of the fee curve: the rate is exactly the minimum fee when
/// the reserve is at or above the liquidity target, and exactly the maximum
/// fee when the reserve is zero (for a positive target).
pub proof fn lemma_fee_rate_boundaries(min_fee: int, max_fee: int, liquidity_target: int, reserve_after: int)
    requires
        min_fee <= max_fee,
    ensures
        reserve_after >= liquidity_target
            ==> spec_fee_rate(min_fee, max_fee, liquidity_target, reserve_after) == min_fee,
        reserve_after == 0 && liquidity_target > 0
            ==> spec_fee_rate(min_fee, max_fee, liquidity_target, reserve_after) == max_fee,
{
    if reserve_after == 0 && liquidity_target > 0 {
        vstd::arithmetic::div_mod::lemma_div_of0(liquidity_target);
    }
}

/// Boundary law of a swap's fee: when the post-swap reserve is at or above
/// the liquidity target the swap pays exactly the minimum fee rate, and when
/// the swap would empty the reserve (against a positive target) it pays
/// exactly the maximum fee rate.
pub proof fn lemma_swap_fee_boundaries(pool: LpPool, staked: u64)
    requires
        pool.min_fee.0 <= pool.max_fee.0,
    ensures
        spec_post_swap_reserve(pool, staked) >= pool.liquidity_target.0
            ==> spec_swap_fee_rate(pool, staked) == pool.min_fee.0,
        spec_post_swap_reserve(pool, staked) == 0 && pool.liquidity_target.0 > 0
            ==> spec_swap_fee_rate(pool, staked) == pool.max_fee.0,
{
    lemma_fee_rate_boundaries(
        pool.min_fee.0 as int,
        pool.max_fee.0 as int,
        pool.liquidity_target.0 as int,
        spec_post_swap_reserve(pool, staked),
    );
}

/// Round-trip law for the bootstrap deposit: on an empty pool, depositing an
/// amount and then removing exactly the minted shares pays back exactly the
/// deposited tokens, pays out no staked tokens, and burns the supply back to
/// zero. Because the withdrawal leg scales the reserve by the absolute share
/// count, only a deposit whose square does not exceed itself (a single
/// smallest unit) stays inside `remove_liquidity`'s no-underflow bound, so
/// the round-trip equality holds on that domain and on no wider one.
pub proof fn lemma_bootstrap_round_trip(pool: LpPool, deposit: u64)
    requires
        pool.token_amount.0 == 0,
        pool.st_token_amount.0 == 0,
        pool.lp_token_amount.0 == 0,
        1 <= deposit,
        deposit * deposit <= deposit,
    ensures
        spec_minted(pool, deposit) == deposit,
        spec_tokens_out(spec_pool_after_add(pool, deposit), deposit) == deposit,
        spec_staked_out(spec_pool_after_add(pool, deposit), deposit) == 0,
        spec_pool_after_remove(spec_pool_after_add(pool, deposit), deposit).lp_token_amount.0 == 0,
{
    assert(deposit == 1) by (nonlinear_arith)
        requires
            1 <= deposit,
            deposit * deposit <= deposit,
    ;
    let pool_after = spec_pool_after_add(pool, deposit);
    assert(pool_after.token_amount.0 == 1);
    assert(pool_after.lp_token_amount.0 == 1);
    vstd::arithmetic::div_mod::lemma_div_by_self(1);
}

} // verus!
