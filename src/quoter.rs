//! Constant-product quotes over the virtual reserves, before any skew.
use vstd::prelude::*;

use crate::fixed_math::{mul_div, mul_div_spec};
use crate::state::{PoolError, PoolState};

verus! {

/// The virtual reserves `(input side, output side)` for a trade that pays in A
/// when `input_is_a` holds, and in B otherwise.
pub open spec fn virtual_sides(pool: PoolState, input_is_a: bool) -> (u64, u64) {
    if input_is_a {
        (pool.virtual_reserves_a, pool.virtual_reserves_b)
    } else {
        (pool.virtual_reserves_b, pool.virtual_reserves_a)
    }
}

/// The fee on `amount_in`: `floor(amount_in * fee_numerator / fee_denominator)`.
pub open spec fn fee_on(pool: PoolState, amount_in: u64) -> int {
    mul_div_spec(amount_in as int, pool.fee_numerator as int, pool.fee_denominator as int)
}

/// Output of the curve for a net input: `floor(net * r_out / (r_in + net))`.
pub open spec fn curve_out(net: int, r_in: int, r_out: int) -> int {
    net * r_out / (r_in + net)
}

/// Exact-input quote `(amount_out_raw, fee_amount)`, or the error it fails with.
pub open spec fn quote_exact_in_spec(pool: PoolState, amount_in: u64, is_base_input: bool) -> Result<
    (u64, u64),
    PoolError,
> {
    let fee = fee_on(pool, amount_in);
    let (r_in, r_out) = virtual_sides(pool, is_base_input);
    if pool.fee_denominator == 0 || fee > amount_in {
        Err(PoolError::MathOverflow)
    } else if fee == amount_in {
        Err(PoolError::ZeroNet)
    } else if r_in == 0 || r_out == 0 || r_in + (amount_in - fee) > u64::MAX {
        Err(PoolError::ZeroLiquidity)
    } else if curve_out(amount_in - fee, r_in as int, r_out as int) >= r_out {
        Err(PoolError::InsufficientLiquidity)
    } else {
        Ok((curve_out(amount_in - fee, r_in as int, r_out as int) as u64, fee as u64))
    }
}

/// Quotes a trade of exactly `amount_in` on the input side: the raw output and the fee.
pub fn quote_exact_in(pool: &PoolState, amount_in: u64, is_base_input: bool) -> (r: Result<
    (u64, u64),
    PoolError,
>)
    ensures
        r == quote_exact_in_spec(*pool, amount_in, is_base_input),
{
    let fee = match mul_div(amount_in, pool.fee_numerator as u64, pool.fee_denominator as u64) {
        Ok(f) => f,
        Err(e) => {
            proof {
                if pool.fee_denominator != 0 {
                    assert(fee_on(*pool, amount_in) > amount_in);
                }
            }
            return Err(e);
        },
    };
    if fee > amount_in {
        return Err(PoolError::MathOverflow);
    }
    let net = amount_in - fee;
    if net == 0 {
        return Err(PoolError::ZeroNet);
    }
    let (r_in, r_out) = if is_base_input {
        (pool.virtual_reserves_a, pool.virtual_reserves_b)
    } else {
        (pool.virtual_reserves_b, pool.virtual_reserves_a)
    };
    if r_in == 0 || r_out == 0 || r_in > u64::MAX - net {
        return Err(PoolError::ZeroLiquidity);
    }
    proof {
        assert(net * r_out / (r_in + net) <= r_out) by (nonlinear_arith)
            requires
                0 < net,
                0 < r_in,
                0 <= r_out,
        ;
    }
    let out = match mul_div(net, r_out, r_in + net) {
        Ok(o) => o,
        Err(e) => {
            return Err(e);
        },
    };
    if out >= r_out {
        return Err(PoolError::InsufficientLiquidity);
    }
    Ok((out, fee))
}

/// Exact-output quote `(amount_in_total, fee_amount)`, or the error it fails with.
pub open spec fn quote_exact_out_spec(pool: PoolState, amount_out: u64, is_base_output: bool) -> Result<
    (u64, u64),
    PoolError,
> {
    let (r_out, r_in) = virtual_sides(pool, is_base_output);
    let gross = mul_div_spec(r_in as int, amount_out as int, r_out - amount_out);
    let den = pool.fee_denominator - pool.fee_numerator;
    let total = mul_div_spec(gross, pool.fee_denominator as int, den);
    if amount_out >= r_out {
        Err(PoolError::InsufficientLiquidity)
    } else if gross > u64::MAX || den <= 0 || total > u64::MAX {
        Err(PoolError::MathOverflow)
    } else {
        Ok((total as u64, (total - gross) as u64))
    }
}

/// Quotes a trade that delivers exactly `amount_out`: the input it costs, fee
/// included, and that fee.
pub fn quote_exact_out(pool: &PoolState, amount_out: u64, is_base_output: bool) -> (r: Result<
    (u64, u64),
    PoolError,
>)
    ensures
        r == quote_exact_out_spec(*pool, amount_out, is_base_output),
{
    let (r_out, r_in) = if is_base_output {
        (pool.virtual_reserves_a, pool.virtual_reserves_b)
    } else {
        (pool.virtual_reserves_b, pool.virtual_reserves_a)
    };
    if amount_out >= r_out {
        return Err(PoolError::InsufficientLiquidity);
    }
    let gross = match mul_div(r_in, amount_out, r_out - amount_out) {
        Ok(g) => g,
        Err(e) => {
            return Err(e);
        },
    };
    if pool.fee_numerator >= pool.fee_denominator {
        return Err(PoolError::MathOverflow);
    }
    let den: u16 = pool.fee_denominator - pool.fee_numerator;
    let total = match mul_div(gross, pool.fee_denominator as u64, den as u64) {
        Ok(t) => t,
        Err(e) => {
            return Err(e);
        },
    };
    proof {
        let g = gross as int;
        let fd = pool.fee_denominator as int;
        let dd = den as int;
        assert(g * fd / dd >= g) by (nonlinear_arith)
            requires
                0 < dd <= fd,
                0 <= g,
        ;
    }
    Ok((total, total - gross))
}

} // verus!
