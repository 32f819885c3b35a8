//! Inventory skew: bends a quote by the deviation of the oracle from the
//! reference price of the last rebalance.
use vstd::prelude::*;

use crate::fixed_math::{mul_div, mul_div_result, BP};
use crate::state::PoolError;

verus! {

/// Smallest skew factor, in basis points.
pub const SKEW_MIN: u64 = 1;

/// Largest skew factor, in basis points.
pub const SKEW_MAX: u64 = 20000;

/// `v` held within `[SKEW_MIN, SKEW_MAX]`.
pub open spec fn clamp_skew(v: int) -> int {
    if v < SKEW_MIN {
        SKEW_MIN as int
    } else if v > SKEW_MAX {
        SKEW_MAX as int
    } else {
        v
    }
}

/// The skew factor in basis points for exponent `z`, oracle price `p` and
/// reference price `p_ref`.
pub open spec fn skew_factor_spec(z: int, p: int, p_ref: int) -> int {
    if p_ref == 0 {
        BP as int
    } else {
        let ratio = p * 10000 / p_ref;
        if ratio > 10000 {
            clamp_skew(10000 + (ratio - 10000) * z / 10000)
        } else if ratio < 10000 {
            clamp_skew(10000 - (10000 - ratio) * z / 10000)
        } else {
            BP as int
        }
    }
}

/// The skew factor, in basis points, that an output is multiplied by.
pub fn skew_factor(inventory_exponent: u64, current_price: u64, reference_price: u64) -> (r: u64)
    ensures
        r as int == skew_factor_spec(
            inventory_exponent as int,
            current_price as int,
            reference_price as int,
        ),
        SKEW_MIN <= r <= SKEW_MAX,
{
    if reference_price == 0 {
        return BP;
    }
    let z = inventory_exponent as u128;
    proof {
        assert(current_price as int * 10000 <= u64::MAX as int * 10000) by (nonlinear_arith);
    }
    let ratio: u128 = (current_price as u128 * 10000) / (reference_price as u128);
    if ratio > 10000 {
        let d: u128 = ratio - 10000;
        if z == 0 {
            proof {
                assert(d * z == 0) by (nonlinear_arith)
                    requires
                        z == 0,
                ;
            }
            return BP;
        }
        if d > u128::MAX / z {
            proof {
                assert(d * z / 10000 > 10000) by (nonlinear_arith)
                    requires
                        d > u128::MAX / z,
                        z > 0,
                ;
            }
            return SKEW_MAX;
        }
        proof {
            assert(d * z <= u128::MAX) by (nonlinear_arith)
                requires
                    d <= u128::MAX / z,
                    z > 0,
            ;
        }
        let inc: u128 = d * z / 10000;
        if inc > 10000 {
            SKEW_MAX
        } else {
            (10000 + inc) as u64
        }
    } else if ratio < 10000 {
        let d: u128 = 10000 - ratio;
        proof {
            assert(d * z <= 10000 * u64::MAX) by (nonlinear_arith)
                requires
                    d <= 10000,
                    z <= u64::MAX,
            ;
        }
        let dec: u128 = d * z / 10000;
        if dec > 9999 {
            SKEW_MIN
        } else {
            (10000 - dec) as u64
        }
    } else {
        BP
    }
}

/// What `apply_inventory_adjustment` returns.
pub open spec fn apply_inventory_adjustment_spec(
    base_output: u64,
    inventory_exponent: u64,
    current_price: u64,
    reference_price: u64,
) -> Result<u64, PoolError> {
    mul_div_result(
        base_output,
        skew_factor_spec(inventory_exponent as int, current_price as int, reference_price as int)
            as u64,
        BP,
    )
}

/// Scales `base_output` by the skew factor; fails with `MathOverflow` when the
/// scaled output does not fit in 64 bits.
pub fn apply_inventory_adjustment(
    base_output: u64,
    inventory_exponent: u64,
    current_price: u64,
    reference_price: u64,
) -> (r: Result<u64, PoolError>)
    ensures
        r == apply_inventory_adjustment_spec(
            base_output,
            inventory_exponent,
            current_price,
            reference_price,
        ),
{
    let adj = skew_factor(inventory_exponent, current_price, reference_price);
    mul_div(base_output, adj, BP)
}

} // verus!
