use vstd::prelude::*;

use crate::error::ResonanceError;
use crate::pool_state::PoolState;

verus! {

/// Basis points in one whole.
pub const BPS_DENOMINATOR: u128 = 10_000;

/// The share of a trade, in basis points, that the cheap pool leaves after its fee.
pub open spec fn fee_multiplier(cheap: PoolState) -> int {
    BPS_DENOMINATOR - cheap.base_fee_rate
}

/// The largest quote input that the cheap pool's base reserve can absorb
/// after its buy-side fee.
pub open spec fn liquidity_cap(cheap: PoolState) -> int {
    cheap.total_liquidity_x * cheap.current_price * fee_multiplier(cheap) / BPS_DENOMINATOR as int
}

/// The largest quote input whose proceeds the expensive pool's quote reserve
/// can pay back, converted through the cheap pool's price and fee.
pub open spec fn counter_cap(cheap: PoolState, expensive: PoolState) -> int {
    expensive.total_liquidity_y * BPS_DENOMINATOR / (fee_multiplier(cheap) * cheap.current_price)
}

/// The smaller of `a` and `b`.
pub open spec fn min_of(a: int, b: int) -> int {
    if a <= b {
        a
    } else {
        b
    }
}

/// The trade size bounded by both pools and by the available balance.
pub open spec fn optimal_amount(cheap: PoolState, expensive: PoolState, balance: u64) -> int {
    min_of(min_of(liquidity_cap(cheap), counter_cap(cheap, expensive)), balance as int)
}

/// What sizing a trade from `cheap` to `expensive` with `balance` available
/// gives: the checks in the order they are made, then the bounded size.
pub open spec fn optimal_amount_result(cheap: PoolState, expensive: PoolState, balance: u64) -> Result<
    u64,
    ResonanceError,
> {
    if expensive.current_price <= cheap.current_price {
        Err(ResonanceError::NoArbitrageOpportunity)
    } else if cheap.base_fee_rate > BPS_DENOMINATOR {
        Err(ResonanceError::ArithmeticOverflow)
    } else if cheap.total_liquidity_x * cheap.current_price * fee_multiplier(cheap) > u128::MAX {
        Err(ResonanceError::ArithmeticOverflow)
    } else if fee_multiplier(cheap) * cheap.current_price == 0 {
        Err(ResonanceError::ArithmeticOverflow)
    } else if optimal_amount(cheap, expensive, balance) == 0 {
        Err(ResonanceError::NoArbitrageOpportunity)
    } else {
        Ok(optimal_amount(cheap, expensive, balance) as u64)
    }
}

/// Sizes the quote input of an arbitrage that buys on `pool_a` (the cheaper
/// pool) and sells on `pool_b`: the smaller of what `pool_a`'s base reserve
/// can absorb and what `pool_b`'s quote reserve can pay back, capped by
/// `vault_balance_y`. A size of zero is a failure, never an empty success.
pub fn calculate_optimal_amount_in(pool_a: &PoolState, pool_b: &PoolState, vault_balance_y: u64) -> (r:
    Result<u64, ResonanceError>)
    ensures
        r == optimal_amount_result(*pool_a, *pool_b, vault_balance_y),
        pool_a.current_price < pool_b.current_price ==> (r matches Ok(amount) ==> {
            &&& 0 < amount
            &&& amount <= liquidity_cap(*pool_a)
            &&& amount <= counter_cap(*pool_a, *pool_b)
            &&& amount <= vault_balance_y
        }),
        pool_b.current_price <= pool_a.current_price ==> r == Err::<u64, _>(
            ResonanceError::NoArbitrageOpportunity,
        ),
{
    if pool_b.current_price <= pool_a.current_price {
        return Err(ResonanceError::NoArbitrageOpportunity);
    }
    let reserve_x_a = pool_a.total_liquidity_x as u128;
    let reserve_y_b = pool_b.total_liquidity_y as u128;
    let fee_bp_a = pool_a.base_fee_rate as u128;
    let fee_mult_a = match BPS_DENOMINATOR.checked_sub(fee_bp_a) {
        Some(m) => m,
        None => return Err(ResonanceError::ArithmeticOverflow),
    };
    let price_a = pool_a.current_price as u128;

    proof {
        assert(reserve_x_a * price_a <= u64::MAX * u64::MAX) by (nonlinear_arith)
            requires
                reserve_x_a <= u64::MAX,
                price_a <= u64::MAX,
        ;
        assert(fee_mult_a * price_a <= BPS_DENOMINATOR * u64::MAX) by (nonlinear_arith)
            requires
                fee_mult_a <= BPS_DENOMINATOR,
                price_a <= u64::MAX,
        ;
    }
    let reserve_times_price = reserve_x_a * price_a;
    let scaled_reserve = match reserve_times_price.checked_mul(fee_mult_a) {
        Some(v) => v,
        None => return Err(ResonanceError::ArithmeticOverflow),
    };
    let liquidity_cap_amount = scaled_reserve / BPS_DENOMINATOR;

    let denominator = fee_mult_a * price_a;
    if denominator == 0 {
        return Err(ResonanceError::ArithmeticOverflow);
    }
    let counter_cap_amount = reserve_y_b * BPS_DENOMINATOR / denominator;

    let optimal = if liquidity_cap_amount <= counter_cap_amount {
        liquidity_cap_amount
    } else {
        counter_cap_amount
    };
    let capped = if optimal <= vault_balance_y as u128 {
        optimal
    } else {
        vault_balance_y as u128
    };
    if capped == 0 {
        return Err(ResonanceError::NoArbitrageOpportunity);
    }
    Ok(capped as u64)
}

} // verus!
