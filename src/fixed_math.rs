//! Unsigned fixed-point helpers on a basis-point scale.
use vstd::prelude::*;

use crate::state::PoolError;

verus! {

/// The basis-point scale: `10000` stands for one.
pub const BP: u64 = 10000;

/// `floor(a * b / d)` over the integers.
pub open spec fn mul_div_spec(a: int, b: int, d: int) -> int {
    a * b / d
}

/// What `mul_div` returns: the quotient when `d` is non-zero and it fits.
pub open spec fn mul_div_result(a: u64, b: u64, d: u64) -> Result<u64, PoolError> {
    if d == 0 || mul_div_spec(a as int, b as int, d as int) > u64::MAX {
        Err(PoolError::MathOverflow)
    } else {
        Ok(mul_div_spec(a as int, b as int, d as int) as u64)
    }
}

/// `floor(a * b / d)`, computed in 128 bits and narrowed with a check.
pub fn mul_div(a: u64, b: u64, d: u64) -> (r: Result<u64, PoolError>)
    ensures
        r == mul_div_result(a, b, d),
{
    if d == 0 {
        return Err(PoolError::MathOverflow);
    }
    proof {
        assert(0 <= (a as int) * (b as int) <= (u64::MAX as int) * (u64::MAX as int))
            by (nonlinear_arith);
    }
    let wide: u128 = (a as u128) * (b as u128);
    let q: u128 = wide / (d as u128);
    if q > u64::MAX as u128 {
        Err(PoolError::MathOverflow)
    } else {
        Ok(q as u64)
    }
}

/// `|a - b| * 10000 / reference` over the integers.
pub open spec fn abs_diff_bps_spec(a: int, b: int, reference: int) -> int {
    let diff = if a >= b { a - b } else { b - a };
    diff * 10000 / reference
}

/// Deviation of `a` from `b` in basis points of `reference`.
pub fn abs_diff_bps(a: u64, b: u64, reference: u64) -> (r: Result<u64, PoolError>)
    ensures
        r == (if reference == 0 || abs_diff_bps_spec(a as int, b as int, reference as int)
            > u64::MAX {
            Err(PoolError::MathOverflow)
        } else {
            Ok(abs_diff_bps_spec(a as int, b as int, reference as int) as u64)
        }),
{
    let diff: u64 = if a >= b { a - b } else { b - a };
    mul_div(diff, BP, reference)
}

/// `r` is the integer square root of `n`.
pub open spec fn is_isqrt(n: int, r: int) -> bool {
    0 <= r && r * r <= n && n < (r + 1) * (r + 1)
}

/// The integer square root of `n`, for `n >= 0`.
pub open spec fn isqrt_spec(n: int) -> int {
    choose|r: int| is_isqrt(n, r)
}

/// A non-negative integer has an integer square root.
pub proof fn lemma_isqrt_exists(n: int)
    requires
        0 <= n,
    ensures
        is_isqrt(n, isqrt_spec(n)),
    decreases n,
{
    if n == 0 {
        assert(is_isqrt(0, 0)) by (nonlinear_arith);
    } else {
        lemma_isqrt_exists(n - 1);
        let r = isqrt_spec(n - 1);
        if n < (r + 1) * (r + 1) {
            assert(is_isqrt(n, r));
        } else {
            assert(n == (r + 1) * (r + 1));
            assert(n < (r + 2) * (r + 2)) by (nonlinear_arith)
                requires
                    n == (r + 1) * (r + 1),
                    r >= 0,
            ;
            assert(is_isqrt(n, r + 1));
        }
    }
}

/// A non-negative integer has one integer square root.
pub proof fn lemma_isqrt_unique(n: int, r: int)
    requires
        is_isqrt(n, r),
    ensures
        isqrt_spec(n) == r,
{
    let c = isqrt_spec(n);
    assert(is_isqrt(n, c));
    if c < r {
        assert((c + 1) * (c + 1) <= r * r) by (nonlinear_arith)
            requires
                0 <= c < r,
        ;
    } else if r < c {
        assert((r + 1) * (r + 1) <= c * c) by (nonlinear_arith)
            requires
                0 <= r < c,
        ;
    }
}

/// One Newton step `(x + n / x) / 2` keeps an upper estimate of the root.
proof fn lemma_newton_step_stays_above(n: int, x: int)
    requires
        1 <= x,
        0 <= n,
    ensures
        n < ((x + n / x) / 2 + 1) * ((x + n / x) / 2 + 1),
{
    let q = n / x;
    let m = (x + q) / 2 + 1;
    assert(x * q <= n && n < x * (q + 1)) by (nonlinear_arith)
        requires
            q == n / x,
            1 <= x,
            0 <= n,
    ;
    assert(q + 1 <= 2 * m - x);
    assert(n < m * m) by (nonlinear_arith)
        requires
            n < x * (q + 1),
            q + 1 <= 2 * m - x,
            1 <= x,
            0 <= q,
    ;
}

/// Integer square root of a 128-bit value by Newton's method.
pub fn integer_sqrt_wide(n: u128) -> (r: u64)
    ensures
        is_isqrt(n as int, r as int),
        r == isqrt_spec(n as int),
{
    if n == 0 {
        assert(is_isqrt(0, 0)) by (nonlinear_arith);
        proof {
            lemma_isqrt_unique(0, 0);
        }
        return 0;
    }
    let mut x: u128 = n;
    let mut y: u128 = x / 2 + (n / x) / 2 + ((x % 2) + (n / x) % 2) / 2;
    proof {
        assert(n < (n + 1) * (n + 1)) by (nonlinear_arith)
            requires
                n >= 1,
        ;
        lemma_newton_step_stays_above(n as int, x as int);
    }
    while y < x
        invariant
            1 <= x <= n,
            n < (x + 1) * (x + 1),
            y as int == (x + n / x) / 2,
            n < (y + 1) * (y + 1),
        decreases x,
    {
        proof {
            if y == 0 {
                assert((y + 1) * (y + 1) == 1) by (nonlinear_arith)
                    requires
                        y == 0,
                ;
            }
        }
        x = y;
        y = x / 2 + (n / x) / 2 + ((x % 2) + (n / x) % 2) / 2;
        proof {
            lemma_newton_step_stays_above(n as int, x as int);
        }
    }
    proof {
        let q = n / x;
        assert(q >= x);
        assert(x * x <= n) by (nonlinear_arith)
            requires
                q == n / x,
                q >= x,
                x >= 1,
        ;
        if x > u64::MAX {
            assert(x * x > u128::MAX) by (nonlinear_arith)
                requires
                    x > u64::MAX,
            ;
        }
        lemma_isqrt_unique(n as int, x as int);
    }
    x as u64
}

/// Integer square root: the largest `r` with `r * r <= n`.
pub fn integer_sqrt(n: u64) -> (r: u64)
    ensures
        is_isqrt(n as int, r as int),
        r == isqrt_spec(n as int),
{
    integer_sqrt_wide(n as u128)
}

} // verus!
