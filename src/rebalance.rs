//! Rebalance trigger and the recomputation of the virtual reserves onto the
//! oracle price.
use vstd::prelude::*;

use crate::fixed_math::{abs_diff_bps, abs_diff_bps_spec, integer_sqrt, integer_sqrt_wide, isqrt_spec, mul_div};
use crate::state::{PoolError, PoolState};

verus! {

/// Exact square root of the basis-point scale.
pub const SQRT_BP: u64 = 100;

/// Whether a swap or a rebalance request at `oracle_price` recalibrates the pool.
pub open spec fn should_rebalance_spec(pool: PoolState, oracle_price: u64) -> bool {
    pool.last_rebalance_price == 0 || abs_diff_bps_spec(
        oracle_price as int,
        pool.last_rebalance_price as int,
        pool.last_rebalance_price as int,
    ) > pool.rebalance_threshold
}

/// True when no reference price is set yet, or when the oracle deviates from it
/// by more than the rebalance threshold.
pub fn should_rebalance(pool: &PoolState, oracle_price: u64) -> (r: bool)
    ensures
        r == should_rebalance_spec(*pool, oracle_price),
{
    if pool.last_rebalance_price == 0 {
        return true;
    }
    match abs_diff_bps(oracle_price, pool.last_rebalance_price, pool.last_rebalance_price) {
        Ok(deviation) => deviation > pool.rebalance_threshold,
        Err(_) => true,
    }
}

/// The pool after a rebalance at `oracle_price` in slot `current_slot`: new
/// virtual reserves `isqrt(k) * 100 / isqrt(p)` and `isqrt(k) * isqrt(p) / 100`.
pub open spec fn rebalance_spec(pool: PoolState, oracle_price: u64, current_slot: u64) -> Result<
    PoolState,
    PoolError,
> {
    let s = isqrt_spec(pool.curve_k());
    let q = isqrt_spec(oracle_price as int);
    if q == 0 {
        Err(PoolError::RebalanceDegenerate)
    } else {
        let va = s * 100 / q;
        let vb = s * q / 100;
        if va == 0 || va > u64::MAX || vb == 0 || vb > u64::MAX {
            Err(PoolError::RebalanceDegenerate)
        } else {
            Ok(
                PoolState {
                    virtual_reserves_a: va as u64,
                    virtual_reserves_b: vb as u64,
                    last_rebalance_price: oracle_price,
                    last_rebalance_slot: current_slot,
                    ..pool
                },
            )
        }
    }
}

/// Moves the virtual reserves onto the oracle price, keeping their product up
/// to rounding, and records the price and slot; fails with
/// `RebalanceDegenerate`, leaving the pool as it was, when a reserve would be
/// zero or too large.
pub fn perform_rebalance(pool: &mut PoolState, oracle_price: u64, current_slot: u64) -> (r: Result<
    (),
    PoolError,
>)
    ensures
        match r {
            Ok(()) => rebalance_spec(*old(pool), oracle_price, current_slot) == Ok::<
                PoolState,
                PoolError,
            >(*final(pool)),
            Err(e) => rebalance_spec(*old(pool), oracle_price, current_slot) == Err::<
                PoolState,
                PoolError,
            >(e) && *final(pool) == *old(pool),
        },
{
    proof {
        assert(0 <= pool.curve_k() <= u64::MAX as int * u64::MAX as int) by (nonlinear_arith);
    }
    let k: u128 = (pool.virtual_reserves_a as u128) * (pool.virtual_reserves_b as u128);
    let sqrt_k = integer_sqrt_wide(k);
    let sqrt_p = integer_sqrt(oracle_price);
    if sqrt_p == 0 {
        return Err(PoolError::RebalanceDegenerate);
    }
    let va = match mul_div(sqrt_k, SQRT_BP, sqrt_p) {
        Ok(v) => v,
        Err(_) => {
            return Err(PoolError::RebalanceDegenerate);
        },
    };
    let vb = match mul_div(sqrt_k, sqrt_p, SQRT_BP) {
        Ok(v) => v,
        Err(_) => {
            return Err(PoolError::RebalanceDegenerate);
        },
    };
    if va == 0 || vb == 0 {
        return Err(PoolError::RebalanceDegenerate);
    }
    pool.virtual_reserves_a = va;
    pool.virtual_reserves_b = vb;
    pool.last_rebalance_price = oracle_price;
    pool.last_rebalance_slot = current_slot;
    Ok(())
}

} // verus!
