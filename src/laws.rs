//! Properties that relate several operations of the engine.
use vstd::prelude::*;

use crate::fixed_math::{abs_diff_bps_spec, is_isqrt, isqrt_spec, lemma_isqrt_exists, lemma_isqrt_unique, mul_div_result, mul_div_spec, BP};
use crate::quoter::{curve_out, fee_on, quote_exact_in_spec, quote_exact_out_spec, virtual_sides};
use crate::rebalance::{rebalance_spec, should_rebalance_spec};
use crate::skew::{apply_inventory_adjustment_spec, skew_factor_spec};
use crate::state::{OraclePrice, PoolError, PoolState, TradeResult};
use crate::admin::rebalance_v2_spec;
use crate::swap::{complete_trade, execute_exact_in_spec, execute_exact_out_spec, settle_spec};

verus! {

/// `floor(x1 / d1) <= floor(x2 / d2)` whenever `x1 * d2 <= x2 * d1`.
proof fn lemma_div_le_cross(x1: int, d1: int, x2: int, d2: int)
    requires
        0 <= x1,
        0 <= x2,
        0 < d1,
        0 < d2,
        x1 * d2 <= x2 * d1,
    ensures
        x1 / d1 <= x2 / d2,
{
    let q1 = x1 / d1;
    assert(q1 * d1 <= x1) by (nonlinear_arith)
        requires
            q1 == x1 / d1,
            0 < d1,
            0 <= x1,
    ;
    assert(q1 * d2 <= x2) by (nonlinear_arith)
        requires
            q1 * d1 <= x1,
            x1 * d2 <= x2 * d1,
            0 < d1,
            0 < d2,
            0 <= q1,
    ;
    assert(q1 <= x2 / d2) by (nonlinear_arith)
        requires
            q1 * d2 <= x2,
            0 < d2,
            0 <= q1,
    ;
}

/// The curve output grows with the net input.
proof fn lemma_curve_out_monotone(n1: int, n2: int, r_in: int, r_out: int)
    requires
        0 < n1 <= n2,
        0 < r_in,
        0 <= r_out,
    ensures
        curve_out(n1, r_in, r_out) <= curve_out(n2, r_in, r_out),
{
    assert((n1 * r_out) * (r_in + n2) <= (n2 * r_out) * (r_in + n1)) by (nonlinear_arith)
        requires
            0 < n1 <= n2,
            0 < r_in,
            0 <= r_out,
    ;
    assert(0 <= n1 * r_out && 0 <= n2 * r_out) by (nonlinear_arith)
        requires
            0 < n1 <= n2,
            0 <= r_out,
    ;
    lemma_div_le_cross(n1 * r_out, r_in + n1, n2 * r_out, r_in + n2);
}

/// Before any rebalance, an exact-input swap whose skew does not raise the
/// output leaves the curve constant `k` of the virtual reserves no smaller.
pub proof fn lemma_exact_in_keeps_curve(
    pool: PoolState,
    amount_in: u64,
    is_base_input: bool,
    raw: u64,
    fee: u64,
    out: u64,
    oracle_price: u64,
    settled: PoolState,
)
    requires
        quote_exact_in_spec(pool, amount_in, is_base_input) == Ok::<(u64, u64), PoolError>(
            (raw, fee),
        ),
        skew_factor_spec(
            pool.inventory_exponent as int,
            oracle_price as int,
            pool.last_rebalance_price as int,
        ) <= BP,
        apply_inventory_adjustment_spec(
            raw,
            pool.inventory_exponent,
            oracle_price,
            pool.last_rebalance_price,
        ) == Ok::<u64, PoolError>(out),
        settle_spec(pool, is_base_input, amount_in, out, fee) == Ok::<PoolState, PoolError>(
            settled,
        ),
    ensures
        settled.curve_k() >= pool.curve_k(),
{
    let adj = skew_factor_spec(
        pool.inventory_exponent as int,
        oracle_price as int,
        pool.last_rebalance_price as int,
    );
    assert(raw as int * adj / 10000 <= raw) by (nonlinear_arith)
        requires
            0 <= adj <= 10000,
            0 <= raw,
    ;
    let (r_in, r_out) = virtual_sides(pool, is_base_input);
    let net = amount_in - fee;
    let ri = r_in as int;
    let ro = r_out as int;
    assert(raw as int == curve_out(net, ri, ro));
    assert(raw * (ri + net) <= net * ro) by (nonlinear_arith)
        requires
            raw == (net * ro) / (ri + net),
            0 < ri,
            0 < net,
            0 <= ro,
    ;
    let o = out as int;
    assert((ri + amount_in) * (ro - o) >= ri * ro) by (nonlinear_arith)
        requires
            o <= raw,
            raw * (ri + net) <= net * ro,
            0 < net <= amount_in,
            0 < ri,
            o < ro,
            0 <= o,
    ;
    if is_base_input {
        assert(settled.curve_k() == (ri + amount_in) * (ro - o));
    } else {
        assert(settled.curve_k() == (ro - o) * (ri + amount_in));
        assert((ro - o) * (ri + amount_in) == (ri + amount_in) * (ro - o)) by (nonlinear_arith);
        assert(pool.curve_k() == ro * ri);
        assert(ro * ri == ri * ro) by (nonlinear_arith);
    }
}

/// The fee of a quote on a pool with a proper fee fraction does not exceed the input,
/// and the input net of it never shrinks as the input grows.
proof fn lemma_net_monotone(pool: PoolState, a1: u64, a2: u64)
    requires
        pool.fee_ok(),
        a1 <= a2,
    ensures
        a1 - fee_on(pool, a1) <= a2 - fee_on(pool, a2),
{
    let nf = pool.fee_numerator as int;
    let df = pool.fee_denominator as int;
    let f1 = fee_on(pool, a1);
    let f2 = fee_on(pool, a2);
    assert(f2 * df <= a2 * nf) by (nonlinear_arith)
        requires
            f2 == (a2 * nf) / df,
            0 < df,
            0 <= a2 * nf,
    ;
    assert(f1 * df > a1 * nf - df) by (nonlinear_arith)
        requires
            f1 == (a1 * nf) / df,
            0 < df,
            0 <= a1 * nf,
    ;
    assert((f2 - f1) * df < (a2 - a1) * nf + df) by (nonlinear_arith)
        requires
            f2 * df <= a2 * nf,
            f1 * df > a1 * nf - df,
    ;
    assert((a2 - a1) * nf <= (a2 - a1) * df) by (nonlinear_arith)
        requires
            a1 <= a2,
            nf <= df,
    ;
    assert(f2 - f1 <= a2 - a1) by (nonlinear_arith)
        requires
            (f2 - f1) * df < (a2 - a1) * df + df,
            0 < df,
    ;
}

/// With the reserves held fixed, a larger exact input never quotes a smaller
/// raw output (as long as both quotes succeed).
pub proof fn lemma_quote_exact_in_monotone(
    pool: PoolState,
    is_base_input: bool,
    a1: u64,
    a2: u64,
    out1: u64,
    fee1: u64,
    out2: u64,
    fee2: u64,
)
    requires
        pool.fee_ok(),
        a1 <= a2,
        quote_exact_in_spec(pool, a1, is_base_input) == Ok::<(u64, u64), PoolError>((out1, fee1)),
        quote_exact_in_spec(pool, a2, is_base_input) == Ok::<(u64, u64), PoolError>((out2, fee2)),
    ensures
        out1 <= out2,
{
    lemma_net_monotone(pool, a1, a2);
    let (r_in, r_out) = virtual_sides(pool, is_base_input);
    lemma_curve_out_monotone(
        a1 - fee_on(pool, a1),
        a2 - fee_on(pool, a2),
        r_in as int,
        r_out as int,
    );
}

/// An exact-output quote followed by an exact-input quote of the input it asks
/// for gives back the requested output up to one unit, on a pool with a proper
/// fee fraction whose output-side virtual reserve exceeds the input side by at
/// most `amount_out + 1`. The second quote fails only for an output of at most
/// one unit, an empty input side, or an input side that would overflow.
pub proof fn lemma_quote_round_trip(
    pool: PoolState,
    amount_out: u64,
    is_base_output: bool,
    total_in: u64,
    fee_out: u64,
)
    requires
        pool.fee_ok(),
        virtual_sides(pool, is_base_output).0 <= virtual_sides(pool, is_base_output).1
            + amount_out + 1,
        quote_exact_out_spec(pool, amount_out, is_base_output) == Ok::<(u64, u64), PoolError>(
            (total_in, fee_out),
        ),
    ensures
        match quote_exact_in_spec(pool, total_in, !is_base_output) {
            Ok((out, _)) => out + 1 >= amount_out,
            Err(_) => amount_out <= 1 || virtual_sides(pool, is_base_output).1 == 0
                || virtual_sides(pool, is_base_output).1 + total_in > u64::MAX,
        },
{
    let (r_out, r_in) = virtual_sides(pool, is_base_output);
    let ro = r_out as int;
    let ri = r_in as int;
    let a = amount_out as int;
    let nf = pool.fee_numerator as int;
    let df = pool.fee_denominator as int;
    let dd = df - nf;
    let g = mul_div_spec(ri, a, ro - a);
    let t = total_in as int;
    let f = fee_on(pool, total_in);
    let net = t - f;
    assert(t == g * df / dd);
    assert(g * (ro - a) > ri * a - (ro - a)) by (nonlinear_arith)
        requires
            g == (ri * a) / (ro - a),
            0 < ro - a,
            0 <= ri * a,
    ;
    assert(t * dd > g * df - dd) by (nonlinear_arith)
        requires
            t == (g * df) / dd,
            0 < dd,
            0 <= g * df,
    ;
    assert(f * df <= t * nf) by (nonlinear_arith)
        requires
            f == (t * nf) / df,
            0 < df,
            0 <= t * nf,
    ;
    assert(f < t || t == 0) by (nonlinear_arith)
        requires
            f * df <= t * nf,
            0 < nf < df,
            0 <= t,
    ;
    assert(net * df > (g - 1) * df) by (nonlinear_arith)
        requires
            net == t - f,
            f * df <= t * nf,
            t * dd > g * df - dd,
            dd == df - nf,
            0 < nf < df,
    ;
    assert(net >= g) by (nonlinear_arith)
        requires
            net * df > (g - 1) * df,
            0 < df,
    ;
    assert(0 <= g) by (nonlinear_arith)
        requires
            g == (ri * a) / (ro - a),
            0 < ro - a,
            0 <= ri * a,
    ;
    if a >= 2 && ri > 0 {
        assert(ri * a >= ro - a) by (nonlinear_arith)
            requires
                ro <= ri + a + 1,
                a >= 2,
                ri >= 1,
        ;
        assert(g >= 1) by (nonlinear_arith)
            requires
                g == (ri * a) / (ro - a),
                ri * a >= ro - a,
                0 < ro - a,
        ;
        assert(net >= 1);
        assert(t >= 1);
        if ri + t <= u64::MAX {
            assert(net * ro / (ri + net) < ro) by (nonlinear_arith)
                requires
                    0 < net,
                    0 < ri,
                    0 < ro,
            ;
        }
    }
    if a >= 1 && quote_exact_in_spec(pool, total_in, !is_base_output) is Ok {
        let out = quote_exact_in_spec(pool, total_in, !is_base_output)->Ok_0.0;
        assert(g * (ro - a + 1) >= (a - 1) * ri) by (nonlinear_arith)
            requires
                g * (ro - a) > ri * a - (ro - a),
                ro <= ri + a + 1,
                0 <= g,
        ;
        assert(net * (ro - a + 1) >= (a - 1) * ri) by (nonlinear_arith)
            requires
                g * (ro - a + 1) >= (a - 1) * ri,
                net >= g,
                0 < ro - a + 1,
        ;
        assert(net * ro >= (a - 1) * (ri + net)) by (nonlinear_arith)
            requires
                net * (ro - a + 1) >= (a - 1) * ri,
        ;
        assert(out as int == curve_out(net, ri, ro));
        assert((net * ro) / (ri + net) >= a - 1) by (nonlinear_arith)
            requires
                net * ro >= (a - 1) * (ri + net),
                0 < ri + net,
                0 <= a - 1,
        ;
    }
}

/// At parity with the reference price the skew leaves every output as it is.
pub proof fn lemma_skew_parity(x: u64, z: u64, p: u64)
    requires
        p > 0,
    ensures
        apply_inventory_adjustment_spec(x, z, p, p) == Ok::<u64, PoolError>(x),
{
    assert(p as int * 10000 / p as int == 10000) by (nonlinear_arith)
        requires
            p > 0,
    ;
    assert(x as int * 10000 / 10000 == x) by (nonlinear_arith);
}

/// Right after a rebalance at price `p`, the pool does not ask for another one
/// at the same price.
pub proof fn lemma_rebalance_fixed_point(
    pool: PoolState,
    p: u64,
    current_slot: u64,
    next: PoolState,
)
    requires
        rebalance_spec(pool, p, current_slot) == Ok::<PoolState, PoolError>(next),
    ensures
        next.last_rebalance_price == p,
        !should_rebalance_spec(next, p),
        forall|slot: u64|
            rebalance_v2_spec(next, next.authority, p, slot) == Ok::<(PoolState, bool), PoolError>(
                (next, false),
            ),
{
    if p == 0 {
        assert(is_isqrt(0, 0)) by (nonlinear_arith);
        lemma_isqrt_unique(0, 0);
    }
    assert(abs_diff_bps_spec(p as int, p as int, p as int) == 0);
}

/// The fee counters after a completed trade: the input side's grows by the fee,
/// the other is unchanged.
pub open spec fn fees_booked(pool: PoolState, next: PoolState, input_is_a: bool, fee: u64) -> bool {
    if input_is_a {
        next.cumulative_fees_a == pool.cumulative_fees_a + fee && next.cumulative_fees_b
            == pool.cumulative_fees_b
    } else {
        next.cumulative_fees_b == pool.cumulative_fees_b + fee && next.cumulative_fees_a
            == pool.cumulative_fees_a
    }
}

proof fn lemma_complete_trade_fees(
    pool: PoolState,
    input_is_a: bool,
    amount_in: u64,
    amount_out: u64,
    fee: u64,
    oracle_price: u64,
    current_slot: u64,
    next: PoolState,
    t: TradeResult,
)
    requires
        complete_trade(pool, input_is_a, amount_in, amount_out, fee, oracle_price, current_slot)
            == Ok::<(PoolState, TradeResult), PoolError>((next, t)),
    ensures
        t.fee == fee,
        fees_booked(pool, next, input_is_a, fee),
{
}

/// A successful exact-input swap adds its fee to the counter of the input
/// token and leaves the other counter as it was.
pub proof fn lemma_exact_in_fee_bookkeeping(
    pool: PoolState,
    amount_in: u64,
    min_out: u64,
    is_base_input: bool,
    oracle: OraclePrice,
    current_slot: u64,
    next: PoolState,
    t: TradeResult,
)
    requires
        execute_exact_in_spec(pool, amount_in, min_out, is_base_input, oracle, current_slot)
            == Ok::<(PoolState, TradeResult), PoolError>((next, t)),
    ensures
        fees_booked(pool, next, is_base_input, t.fee),
{
    let (raw, fee) = quote_exact_in_spec(pool, amount_in, is_base_input)->Ok_0;
    let out = apply_inventory_adjustment_spec(
        raw,
        pool.inventory_exponent,
        oracle.price,
        pool.last_rebalance_price,
    )->Ok_0;
    lemma_complete_trade_fees(
        pool,
        is_base_input,
        amount_in,
        out,
        fee,
        oracle.price,
        current_slot,
        next,
        t,
    );
}

/// A successful exact-output swap adds its fee to the counter of the input
/// token and leaves the other counter as it was.
pub proof fn lemma_exact_out_fee_bookkeeping(
    pool: PoolState,
    amount_out: u64,
    max_in: u64,
    is_base_output: bool,
    oracle: OraclePrice,
    current_slot: u64,
    next: PoolState,
    t: TradeResult,
)
    requires
        execute_exact_out_spec(pool, amount_out, max_in, is_base_output, oracle, current_slot)
            == Ok::<(PoolState, TradeResult), PoolError>((next, t)),
    ensures
        fees_booked(pool, next, !is_base_output, t.fee),
{
    let adj = skew_factor_spec(
        pool.inventory_exponent as int,
        oracle.price as int,
        pool.last_rebalance_price as int,
    );
    let effective = mul_div_result(amount_out, BP, adj as u64)->Ok_0;
    let (total_in, fee) = quote_exact_out_spec(pool, effective, is_base_output)->Ok_0;
    lemma_complete_trade_fees(
        pool,
        !is_base_output,
        total_in,
        amount_out,
        fee,
        oracle.price,
        current_slot,
        next,
        t,
    );
}

/// Every reserve, physical and virtual, is positive.
pub open spec fn reserves_positive(pool: PoolState) -> bool {
    pool.reserves_a > 0 && pool.reserves_b > 0 && pool.virtual_reserves_a > 0
        && pool.virtual_reserves_b > 0
}

proof fn lemma_complete_trade_positive(
    pool: PoolState,
    input_is_a: bool,
    amount_in: u64,
    amount_out: u64,
    fee: u64,
    oracle_price: u64,
    current_slot: u64,
    next: PoolState,
    t: TradeResult,
)
    requires
        amount_in > 0,
        complete_trade(pool, input_is_a, amount_in, amount_out, fee, oracle_price, current_slot)
            == Ok::<(PoolState, TradeResult), PoolError>((next, t)),
    ensures
        reserves_positive(next),
{
    let settled = settle_spec(pool, input_is_a, amount_in, amount_out, fee)->Ok_0;
    assert(reserves_positive(settled));
    if should_rebalance_spec(settled, oracle_price) {
        let done = rebalance_spec(settled, oracle_price, current_slot)->Ok_0;
        assert(next == done);
        let sq = isqrt_spec(settled.curve_k());
        let q = isqrt_spec(oracle_price as int);
        assert(0 <= settled.curve_k()) by (nonlinear_arith)
            requires
                settled.curve_k() == settled.virtual_reserves_a as int
                    * settled.virtual_reserves_b as int,
        ;
        lemma_isqrt_exists(settled.curve_k());
        lemma_isqrt_exists(oracle_price as int);
        assert(0 <= sq * 100 / q && 0 <= sq * q / 100) by (nonlinear_arith)
            requires
                0 <= sq,
                0 < q,
        ;
    } else {
        assert(next == settled);
    }
}

/// After a successful exact-input swap both physical and both virtual
/// reserves are positive.
pub proof fn lemma_exact_in_keeps_reserves_positive(
    pool: PoolState,
    amount_in: u64,
    min_out: u64,
    is_base_input: bool,
    oracle: OraclePrice,
    current_slot: u64,
    next: PoolState,
    t: TradeResult,
)
    requires
        execute_exact_in_spec(pool, amount_in, min_out, is_base_input, oracle, current_slot)
            == Ok::<(PoolState, TradeResult), PoolError>((next, t)),
    ensures
        reserves_positive(next),
{
    let (raw, fee) = quote_exact_in_spec(pool, amount_in, is_base_input)->Ok_0;
    let out = apply_inventory_adjustment_spec(
        raw,
        pool.inventory_exponent,
        oracle.price,
        pool.last_rebalance_price,
    )->Ok_0;
    lemma_complete_trade_positive(
        pool,
        is_base_input,
        amount_in,
        out,
        fee,
        oracle.price,
        current_slot,
        next,
        t,
    );
}

/// After a successful exact-output swap both physical and both virtual
/// reserves are positive.
pub proof fn lemma_exact_out_keeps_reserves_positive(
    pool: PoolState,
    amount_out: u64,
    max_in: u64,
    is_base_output: bool,
    oracle: OraclePrice,
    current_slot: u64,
    next: PoolState,
    t: TradeResult,
)
    requires
        execute_exact_out_spec(pool, amount_out, max_in, is_base_output, oracle, current_slot)
            == Ok::<(PoolState, TradeResult), PoolError>((next, t)),
    ensures
        reserves_positive(next),
{
    let adj = skew_factor_spec(
        pool.inventory_exponent as int,
        oracle.price as int,
        pool.last_rebalance_price as int,
    );
    let effective = mul_div_result(amount_out, BP, adj as u64)->Ok_0;
    let (total_in, fee) = quote_exact_out_spec(pool, effective, is_base_output)->Ok_0;
    lemma_complete_trade_positive(
        pool,
        !is_base_output,
        total_in,
        amount_out,
        fee,
        oracle.price,
        current_slot,
        next,
        t,
    );
}

/// A rebalance never raises the curve constant `k`, and loses at most
/// `2 * (v_a' + v_b') + 1` of it to rounding, where `v_a'`, `v_b'` are the new
/// virtual reserves.
pub proof fn lemma_rebalance_drift(
    pool: PoolState,
    oracle_price: u64,
    current_slot: u64,
    next: PoolState,
)
    requires
        rebalance_spec(pool, oracle_price, current_slot) == Ok::<PoolState, PoolError>(next),
    ensures
        next.curve_k() <= pool.curve_k(),
        pool.curve_k() - next.curve_k() <= 2 * (next.virtual_reserves_a
            + next.virtual_reserves_b) + 1,
{
    let k = pool.curve_k();
    assert(0 <= k) by (nonlinear_arith)
        requires
            k == pool.virtual_reserves_a as int * pool.virtual_reserves_b as int,
    ;
    let s = isqrt_spec(k);
    let q = isqrt_spec(oracle_price as int);
    lemma_isqrt_exists(k);
    lemma_isqrt_exists(oracle_price as int);
    let va = next.virtual_reserves_a as int;
    let vb = next.virtual_reserves_b as int;
    assert(va == s * 100 / q && vb == s * q / 100);
    assert(q > 0);
    assert(va * q <= 100 * s && 100 * s < (va + 1) * q) by (nonlinear_arith)
        requires
            va == s * 100 / q,
            q > 0,
            s >= 0,
    ;
    assert(100 * vb <= s * q && s * q < 100 * (vb + 1)) by (nonlinear_arith)
        requires
            vb == s * q / 100,
            q > 0,
            s >= 0,
    ;
    assert(va * vb <= s * s) by (nonlinear_arith)
        requires
            va * q <= 100 * s,
            100 * vb <= s * q,
            q > 0,
            va >= 0,
            vb >= 0,
            s >= 0,
    ;
    assert(s * s < (va + 1) * (vb + 1)) by (nonlinear_arith)
        requires
            100 * s < (va + 1) * q,
            s * q < 100 * (vb + 1),
            q > 0,
            s >= 0,
            va >= 0,
            vb >= 0,
    ;
    assert(2 * s <= va + vb + 1) by (nonlinear_arith)
        requires
            s * s < (va + 1) * (vb + 1),
            s >= 0,
            va >= 0,
            vb >= 0,
    ;
    assert(k <= s * s + 2 * s) by (nonlinear_arith)
        requires
            k < (s + 1) * (s + 1),
    ;
    assert((va + 1) * (vb + 1) == va * vb + va + vb + 1) by (nonlinear_arith);
    assert(next.curve_k() == va * vb);
}

} // verus!
