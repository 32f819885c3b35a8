//! Swap orchestration: oracle checks, quote, skew, slippage, reserve update
//! and the rebalance that may follow.
use vstd::prelude::*;

use crate::fixed_math::{mul_div, mul_div_result, BP};
use crate::quoter::{quote_exact_in, quote_exact_in_spec, quote_exact_out, quote_exact_out_spec};
use crate::rebalance::{perform_rebalance, rebalance_spec, should_rebalance, should_rebalance_spec};
use crate::skew::{apply_inventory_adjustment, apply_inventory_adjustment_spec, skew_factor, skew_factor_spec};
use crate::state::{OraclePrice, PoolError, PoolState, TradeResult};

verus! {

/// The error of an unusable oracle sample, if any: too old, or a zero price.
pub open spec fn oracle_error(pool: PoolState, oracle: OraclePrice, current_slot: u64) -> Option<
    PoolError,
> {
    if current_slot - oracle.publish_slot > pool.oracle_staleness_threshold {
        Some(PoolError::OracleStale)
    } else if oracle.price == 0 {
        Some(PoolError::OracleInvalid)
    } else {
        None
    }
}

/// Rejects a stale oracle sample or one with a zero price.
pub fn check_oracle(pool: &PoolState, oracle: OraclePrice, current_slot: u64) -> (r: Result<
    (),
    PoolError,
>)
    ensures
        match oracle_error(*pool, oracle, current_slot) {
            Some(e) => r == Err::<(), PoolError>(e),
            None => r is Ok,
        },
{
    if current_slot > oracle.publish_slot && current_slot - oracle.publish_slot
        > pool.oracle_staleness_threshold {
        return Err(PoolError::OracleStale);
    }
    if oracle.price == 0 {
        return Err(PoolError::OracleInvalid);
    }
    Ok(())
}

/// The pool after a trade that pays `amount_in` into side A (when `input_is_a`)
/// or B, takes `amount_out` from the other side, and books `fee` on the input
/// side; or the error when the reserves cannot pay and keep a positive
/// balance, or a counter would overflow.
pub open spec fn settle_spec(
    pool: PoolState,
    input_is_a: bool,
    amount_in: u64,
    amount_out: u64,
    fee: u64,
) -> Result<PoolState, PoolError> {
    let (r_in, r_out) = if input_is_a {
        (pool.reserves_a, pool.reserves_b)
    } else {
        (pool.reserves_b, pool.reserves_a)
    };
    let (v_in, v_out) = if input_is_a {
        (pool.virtual_reserves_a, pool.virtual_reserves_b)
    } else {
        (pool.virtual_reserves_b, pool.virtual_reserves_a)
    };
    let fees_in = if input_is_a {
        pool.cumulative_fees_a
    } else {
        pool.cumulative_fees_b
    };
    if amount_out >= v_out || amount_out >= r_out {
        Err(PoolError::InsufficientLiquidity)
    } else if r_in + amount_in > u64::MAX || v_in + amount_in > u64::MAX || fees_in + fee
        > u64::MAX {
        Err(PoolError::MathOverflow)
    } else if input_is_a {
        Ok(
            PoolState {
                reserves_a: (r_in + amount_in) as u64,
                reserves_b: (r_out - amount_out) as u64,
                virtual_reserves_a: (v_in + amount_in) as u64,
                virtual_reserves_b: (v_out - amount_out) as u64,
                cumulative_fees_a: (fees_in + fee) as u64,
                ..pool
            },
        )
    } else {
        Ok(
            PoolState {
                reserves_b: (r_in + amount_in) as u64,
                reserves_a: (r_out - amount_out) as u64,
                virtual_reserves_b: (v_in + amount_in) as u64,
                virtual_reserves_a: (v_out - amount_out) as u64,
                cumulative_fees_b: (fees_in + fee) as u64,
                ..pool
            },
        )
    }
}

/// Applies a trade to the reserves and the fee counter of the input side.
fn settle(pool: &mut PoolState, input_is_a: bool, amount_in: u64, amount_out: u64, fee: u64) -> (r:
    Result<(), PoolError>)
    ensures
        match r {
            Ok(()) => settle_spec(*old(pool), input_is_a, amount_in, amount_out, fee) == Ok::<
                PoolState,
                PoolError,
            >(*final(pool)),
            Err(e) => settle_spec(*old(pool), input_is_a, amount_in, amount_out, fee) == Err::<
                PoolState,
                PoolError,
            >(e) && *final(pool) == *old(pool),
        },
{
    if input_is_a {
        if amount_out >= pool.virtual_reserves_b || amount_out >= pool.reserves_b {
            return Err(PoolError::InsufficientLiquidity);
        }
        if pool.reserves_a > u64::MAX - amount_in || pool.virtual_reserves_a > u64::MAX - amount_in
            || pool.cumulative_fees_a > u64::MAX - fee {
            return Err(PoolError::MathOverflow);
        }
        pool.reserves_a = pool.reserves_a + amount_in;
        pool.reserves_b = pool.reserves_b - amount_out;
        pool.virtual_reserves_a = pool.virtual_reserves_a + amount_in;
        pool.virtual_reserves_b = pool.virtual_reserves_b - amount_out;
        pool.cumulative_fees_a = pool.cumulative_fees_a + fee;
    } else {
        if amount_out >= pool.virtual_reserves_a || amount_out >= pool.reserves_a {
            return Err(PoolError::InsufficientLiquidity);
        }
        if pool.reserves_b > u64::MAX - amount_in || pool.virtual_reserves_b > u64::MAX - amount_in
            || pool.cumulative_fees_b > u64::MAX - fee {
            return Err(PoolError::MathOverflow);
        }
        pool.reserves_b = pool.reserves_b + amount_in;
        pool.reserves_a = pool.reserves_a - amount_out;
        pool.virtual_reserves_b = pool.virtual_reserves_b + amount_in;
        pool.virtual_reserves_a = pool.virtual_reserves_a - amount_out;
        pool.cumulative_fees_b = pool.cumulative_fees_b + fee;
    }
    Ok(())
}

/// The rebalance step that ends a swap: the final pool and whether it rebalanced.
pub open spec fn finish_spec(pool: PoolState, oracle_price: u64, current_slot: u64) -> Result<
    (PoolState, bool),
    PoolError,
> {
    if should_rebalance_spec(pool, oracle_price) {
        match rebalance_spec(pool, oracle_price, current_slot) {
            Ok(p) => Ok((p, true)),
            Err(e) => Err(e),
        }
    } else {
        Ok((pool, false))
    }
}

/// The pool after the reserve update of a trade and the rebalance that follows
/// it, with the trade's result.
pub open spec fn complete_trade(
    pool: PoolState,
    input_is_a: bool,
    amount_in: u64,
    amount_out: u64,
    fee: u64,
    oracle_price: u64,
    current_slot: u64,
) -> Result<(PoolState, TradeResult), PoolError> {
    match settle_spec(pool, input_is_a, amount_in, amount_out, fee) {
        Err(e) => Err(e),
        Ok(settled) => match finish_spec(settled, oracle_price, current_slot) {
            Err(e) => Err(e),
            Ok((done, rebalanced)) => Ok(
                (
                    done,
                    TradeResult {
                        amount_in: amount_in,
                        amount_out: amount_out,
                        fee: fee,
                        rebalanced: rebalanced,
                    },
                ),
            ),
        },
    }
}

/// Outcome of an exact-input swap: the new pool and the trade, or the error.
pub open spec fn execute_exact_in_spec(
    pool: PoolState,
    amount_in: u64,
    min_out: u64,
    is_base_input: bool,
    oracle: OraclePrice,
    current_slot: u64,
) -> Result<(PoolState, TradeResult), PoolError> {
    match oracle_error(pool, oracle, current_slot) {
        Some(e) => Err(e),
        None => match quote_exact_in_spec(pool, amount_in, is_base_input) {
            Err(e) => Err(e),
            Ok((raw, fee)) => match apply_inventory_adjustment_spec(
                raw,
                pool.inventory_exponent,
                oracle.price,
                pool.last_rebalance_price,
            ) {
                Err(e) => Err(e),
                Ok(out) => if out < min_out {
                    Err(PoolError::SlippageExceeded)
                } else {
                    complete_trade(
                        pool,
                        is_base_input,
                        amount_in,
                        out,
                        fee,
                        oracle.price,
                        current_slot,
                    )
                },
            },
        },
    }
}

/// Completes a trade on a pool: reserve update, then a rebalance when due.
fn complete(
    pool: &mut PoolState,
    input_is_a: bool,
    amount_in: u64,
    amount_out: u64,
    fee: u64,
    oracle_price: u64,
    current_slot: u64,
) -> (r: Result<TradeResult, PoolError>)
    ensures
        match r {
            Ok(t) => complete_trade(
                *old(pool),
                input_is_a,
                amount_in,
                amount_out,
                fee,
                oracle_price,
                current_slot,
            ) == Ok::<(PoolState, TradeResult), PoolError>((*final(pool), t)),
            Err(e) => complete_trade(
                *old(pool),
                input_is_a,
                amount_in,
                amount_out,
                fee,
                oracle_price,
                current_slot,
            ) == Err::<(PoolState, TradeResult), PoolError>(e) && *final(pool) == *old(pool),
        },
{
    let mut next = *pool;
    match settle(&mut next, input_is_a, amount_in, amount_out, fee) {
        Ok(()) => {},
        Err(e) => {
            return Err(e);
        },
    }
    let mut rebalanced = false;
    if should_rebalance(&next, oracle_price) {
        match perform_rebalance(&mut next, oracle_price, current_slot) {
            Ok(()) => {
                rebalanced = true;
            },
            Err(e) => {
                return Err(e);
            },
        }
    }
    *pool = next;
    Ok(TradeResult { amount_in, amount_out, fee, rebalanced })
}

/// Swaps exactly `amount_in` of A (when `is_base_input`) or of B for the other
/// token, failing unless at least `min_out` comes out; the pool is left as it
/// was on every failure.
pub fn execute_exact_in(
    pool: &mut PoolState,
    amount_in: u64,
    min_out: u64,
    is_base_input: bool,
    oracle: OraclePrice,
    current_slot: u64,
) -> (r: Result<TradeResult, PoolError>)
    ensures
        match r {
            Ok(t) => execute_exact_in_spec(
                *old(pool),
                amount_in,
                min_out,
                is_base_input,
                oracle,
                current_slot,
            ) == Ok::<(PoolState, TradeResult), PoolError>((*final(pool), t)),
            Err(e) => execute_exact_in_spec(
                *old(pool),
                amount_in,
                min_out,
                is_base_input,
                oracle,
                current_slot,
            ) == Err::<(PoolState, TradeResult), PoolError>(e) && *final(pool) == *old(pool),
        },
{
    match check_oracle(pool, oracle, current_slot) {
        Ok(()) => {},
        Err(e) => {
            return Err(e);
        },
    }
    let (raw, fee) = match quote_exact_in(pool, amount_in, is_base_input) {
        Ok(q) => q,
        Err(e) => {
            return Err(e);
        },
    };
    let out = match apply_inventory_adjustment(
        raw,
        pool.inventory_exponent,
        oracle.price,
        pool.last_rebalance_price,
    ) {
        Ok(o) => o,
        Err(e) => {
            return Err(e);
        },
    };
    if out < min_out {
        return Err(PoolError::SlippageExceeded);
    }
    complete(pool, is_base_input, amount_in, out, fee, oracle.price, current_slot)
}

/// Outcome of an exact-output swap: the new pool and the trade, or the error.
pub open spec fn execute_exact_out_spec(
    pool: PoolState,
    amount_out: u64,
    max_in: u64,
    is_base_output: bool,
    oracle: OraclePrice,
    current_slot: u64,
) -> Result<(PoolState, TradeResult), PoolError> {
    let adj = skew_factor_spec(
        pool.inventory_exponent as int,
        oracle.price as int,
        pool.last_rebalance_price as int,
    );
    match oracle_error(pool, oracle, current_slot) {
        Some(e) => Err(e),
        None => match mul_div_result(amount_out, BP, adj as u64) {
            Err(e) => Err(e),
            Ok(effective) => match quote_exact_out_spec(pool, effective, is_base_output) {
                Err(e) => Err(e),
                Ok((total_in, fee)) => if total_in == 0 {
                    Err(PoolError::ZeroNet)
                } else if total_in > max_in {
                    Err(PoolError::SlippageExceeded)
                } else {
                    complete_trade(
                        pool,
                        !is_base_output,
                        total_in,
                        amount_out,
                        fee,
                        oracle.price,
                        current_slot,
                    )
                },
            },
        },
    }
}

/// Swaps for exactly `amount_out` of A (when `is_base_output`) or of B,
/// failing with `ZeroNet` when the quote costs nothing and with
/// `SlippageExceeded` when more than `max_in` of the other token would be
/// needed; the pool is left as it was on every failure.
pub fn execute_exact_out(
    pool: &mut PoolState,
    amount_out: u64,
    max_in: u64,
    is_base_output: bool,
    oracle: OraclePrice,
    current_slot: u64,
) -> (r: Result<TradeResult, PoolError>)
    ensures
        match r {
            Ok(t) => execute_exact_out_spec(
                *old(pool),
                amount_out,
                max_in,
                is_base_output,
                oracle,
                current_slot,
            ) == Ok::<(PoolState, TradeResult), PoolError>((*final(pool), t)),
            Err(e) => execute_exact_out_spec(
                *old(pool),
                amount_out,
                max_in,
                is_base_output,
                oracle,
                current_slot,
            ) == Err::<(PoolState, TradeResult), PoolError>(e) && *final(pool) == *old(pool),
        },
{
    match check_oracle(pool, oracle, current_slot) {
        Ok(()) => {},
        Err(e) => {
            return Err(e);
        },
    }
    let adj = skew_factor(pool.inventory_exponent, oracle.price, pool.last_rebalance_price);
    let effective = match mul_div(amount_out, BP, adj) {
        Ok(v) => v,
        Err(e) => {
            return Err(e);
        },
    };
    let (total_in, fee) = match quote_exact_out(pool, effective, is_base_output) {
        Ok(q) => q,
        Err(e) => {
            return Err(e);
        },
    };
    if total_in == 0 {
        return Err(PoolError::ZeroNet);
    }
    if total_in > max_in {
        return Err(PoolError::SlippageExceeded);
    }
    complete(pool, !is_base_output, total_in, amount_out, fee, oracle.price, current_slot)
}

} // verus!
