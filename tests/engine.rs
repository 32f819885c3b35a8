use lifinity_v2::admin::{
    initialize_pool, rebalance_v2, recalculate_virtual_reserves, update_concentration,
    update_inventory_params, PoolAccounts, PoolParams,
};
use lifinity_v2::fixed_math::{abs_diff_bps, integer_sqrt, integer_sqrt_wide, mul_div};
use lifinity_v2::instruction::{
    decode_instruction, get_current_slot, get_oracle_price, LifinityInstruction,
};
use lifinity_v2::quoter::{quote_exact_in, quote_exact_out};
use lifinity_v2::rebalance::{perform_rebalance, should_rebalance};
use lifinity_v2::skew::{apply_inventory_adjustment, skew_factor};
use lifinity_v2::state::{OraclePrice, PoolError, PoolState, Pubkey, TradeResult};
use lifinity_v2::swap::{check_oracle, execute_exact_in, execute_exact_out};

fn key(b: u8) -> Pubkey {
    Pubkey { bytes: [b; 32] }
}

fn blank_pool() -> PoolState {
    PoolState {
        is_initialized: false,
        bump_seed: 0,
        concentration_factor: 0,
        inventory_exponent: 0,
        rebalance_threshold: 0,
        token_a_mint: key(0),
        token_b_mint: key(0),
        token_a_vault: key(0),
        token_b_vault: key(0),
        oracle_account: key(0),
        reserves_a: 0,
        reserves_b: 0,
        virtual_reserves_a: 0,
        virtual_reserves_b: 0,
        last_rebalance_price: 0,
        last_rebalance_slot: 0,
        fee_numerator: 0,
        fee_denominator: 0,
        cumulative_fees_a: 0,
        cumulative_fees_b: 0,
        oracle_staleness_threshold: 0,
        authority: key(0),
    }
}

fn accounts() -> PoolAccounts {
    PoolAccounts {
        authority: key(7),
        token_a_mint: key(1),
        token_b_mint: key(2),
        token_a_vault: key(3),
        token_b_vault: key(4),
        oracle_account: key(5),
    }
}

fn params() -> PoolParams {
    PoolParams {
        concentration_factor: 10000,
        inventory_exponent: 0,
        rebalance_threshold: 100,
        fee_numerator: 30,
        fee_denominator: 10000,
        oracle_staleness_threshold: 10,
    }
}

/// A fresh pool holding a million units of each token, priced 1:1.
fn funded_pool() -> PoolState {
    let mut pool = blank_pool();
    initialize_pool(&mut pool, accounts(), params()).unwrap();
    pool.reserves_a = 1_000_000;
    pool.reserves_b = 1_000_000;
    recalculate_virtual_reserves(&mut pool).unwrap();
    pool
}

fn oracle(price: u64, publish_slot: u64) -> OraclePrice {
    OraclePrice { price, publish_slot }
}

/// The funded pool after its first swap of 10 000 A, which also calibrates it.
fn traded_pool() -> PoolState {
    let mut pool = funded_pool();
    execute_exact_in(&mut pool, 10_000, 9_000, true, oracle(10000, 0), 0).unwrap();
    pool
}

#[test]
fn test_sqrt() {
    assert_eq!(integer_sqrt(0), 0);
    assert_eq!(integer_sqrt(1), 1);
    assert_eq!(integer_sqrt(4), 2);
    assert_eq!(integer_sqrt(100), 10);
    assert_eq!(integer_sqrt(1000000), 1000);
}

#[test]
fn test_inventory_adjustment() {
    let output = apply_inventory_adjustment(1000, 5000, 11000, 10000).unwrap();
    assert!(output > 1000);

    let output = apply_inventory_adjustment(1000, 5000, 9000, 10000).unwrap();
    assert!(output < 1000);

    let output = apply_inventory_adjustment(1000, 5000, 10000, 10000).unwrap();
    assert_eq!(output, 1000);
}

#[test]
fn sqrt_brackets_its_argument() {
    for n in [2u64, 3, 15, 16, 17, 99, 1_000_001, u64::MAX - 1, u64::MAX] {
        let r = integer_sqrt(n) as u128;
        assert!(r * r <= n as u128);
        assert!((r + 1) * (r + 1) > n as u128);
    }
    assert_eq!(integer_sqrt(u64::MAX), 4_294_967_295);
    assert_eq!(integer_sqrt_wide(1_000_030_290_000), 1_000_015);
    assert_eq!(integer_sqrt_wide(u128::MAX), u64::MAX);
}

#[test]
fn mul_div_floors_and_checks() {
    assert_eq!(mul_div(7, 3, 2), Ok(10));
    assert_eq!(mul_div(u64::MAX, u64::MAX, u64::MAX), Ok(u64::MAX));
    assert_eq!(mul_div(5, 5, 0), Err(PoolError::MathOverflow));
    assert_eq!(mul_div(u64::MAX, 2, 1), Err(PoolError::MathOverflow));
    assert_eq!(abs_diff_bps(10200, 10000, 10000), Ok(200));
    assert_eq!(abs_diff_bps(9800, 10000, 10000), Ok(200));
    assert_eq!(abs_diff_bps(1, 2, 0), Err(PoolError::MathOverflow));
}

#[test]
fn skew_factor_formula_and_clamp() {
    assert_eq!(skew_factor(5000, 11000, 10000), 10500);
    assert_eq!(skew_factor(5000, 9000, 10000), 9500);
    assert_eq!(skew_factor(5000, 12345, 0), 10000);
    assert_eq!(skew_factor(u64::MAX, u64::MAX, 1), 20000);
    assert_eq!(skew_factor(30000, 1, 10000), 1);
    assert_eq!(apply_inventory_adjustment(1000, 5000, 11000, 10000), Ok(1050));
    assert_eq!(apply_inventory_adjustment(1000, 5000, 9000, 10000), Ok(950));
    assert_eq!(
        apply_inventory_adjustment(u64::MAX, 10000, 20000, 10000),
        Err(PoolError::MathOverflow)
    );
}

#[test]
fn skew_is_identity_at_parity() {
    for (x, z, p) in [(0u64, 0u64, 1u64), (1000, 5000, 10000), (u64::MAX, u64::MAX, u64::MAX)] {
        assert_eq!(apply_inventory_adjustment(x, z, p, p), Ok(x));
    }
}

#[test]
fn quote_exact_in_values() {
    let pool = funded_pool();
    assert_eq!(quote_exact_in(&pool, 10_000, true), Ok((9_871, 30)));
    assert_eq!(quote_exact_in(&pool, 10_000, false), Ok((9_871, 30)));
    assert_eq!(quote_exact_in(&pool, 0, true), Err(PoolError::ZeroNet));
    let mut empty = blank_pool();
    initialize_pool(&mut empty, accounts(), params()).unwrap();
    assert_eq!(quote_exact_in(&empty, 10_000, true), Err(PoolError::ZeroLiquidity));
    assert_eq!(quote_exact_in(&blank_pool(), 10_000, true), Err(PoolError::MathOverflow));
}

#[test]
fn quote_exact_in_is_monotone() {
    let pool = funded_pool();
    let mut last = 0u64;
    for a in [1u64, 2, 10, 333, 334, 10_000, 10_001, 500_000, 1_000_000_000] {
        let (out, _) = quote_exact_in(&pool, a, true).unwrap();
        assert!(out >= last);
        last = out;
    }
}

#[test]
fn quote_exact_out_values() {
    let pool = funded_pool();
    assert_eq!(quote_exact_out(&pool, 9_871, true), Ok((9_998, 29)));
    assert_eq!(quote_exact_out(&pool, 1_000_000, true), Err(PoolError::InsufficientLiquidity));
    assert_eq!(quote_exact_out(&pool, 0, true), Ok((0, 0)));
}

#[test]
fn quote_round_trip_within_dust() {
    let pool = traded_pool();
    for a in [2u64, 17, 9_871, 100_000, 900_000] {
        let (total_in, _) = quote_exact_out(&pool, a, false).unwrap();
        let (out, _) = quote_exact_in(&pool, total_in, true).unwrap();
        assert!(out + 1 >= a);
    }
}

#[test]
fn pool_init_and_first_swap() {
    let pool0 = funded_pool();
    assert_eq!(pool0.virtual_reserves_a, 1_000_000);
    assert_eq!(pool0.virtual_reserves_b, 1_000_000);
    let mut pool = pool0;
    let t = execute_exact_in(&mut pool, 10_000, 9_000, true, oracle(10000, 0), 0).unwrap();
    assert_eq!(
        t,
        TradeResult { amount_in: 10_000, amount_out: 9_871, fee: 30, rebalanced: true }
    );
    assert_eq!(pool.cumulative_fees_a, 30);
    assert_eq!(pool.cumulative_fees_b, 0);
    assert_eq!(pool.reserves_a, 1_010_000);
    assert_eq!(pool.reserves_b, 990_129);
    assert_eq!(pool.virtual_reserves_a, 1_000_015);
    assert_eq!(pool.virtual_reserves_b, 1_000_015);
    assert_eq!(pool.last_rebalance_price, 10000);
    assert_eq!(pool.last_rebalance_slot, 0);
}

#[test]
fn pool_slippage_rejection() {
    let mut pool = traded_pool();
    let before = pool;
    let r = execute_exact_in(&mut pool, 10_000, 9_900, true, oracle(10000, 0), 0);
    assert_eq!(r, Err(PoolError::SlippageExceeded));
    assert_eq!(pool, before);
}

#[test]
fn pool_oracle_stale() {
    let mut pool = traded_pool();
    let before = pool;
    let r = execute_exact_in(&mut pool, 10_000, 0, true, oracle(10000, 0), 11);
    assert_eq!(r, Err(PoolError::OracleStale));
    assert_eq!(pool, before);
    assert_eq!(check_oracle(&pool, oracle(10000, 0), 10), Ok(()));
    assert_eq!(check_oracle(&pool, oracle(10000, 20), 3), Ok(()));
}

#[test]
fn pool_oracle_invalid() {
    let mut pool = traded_pool();
    let r = execute_exact_in(&mut pool, 10_000, 0, true, oracle(0, 0), 0);
    assert_eq!(r, Err(PoolError::OracleInvalid));
}

#[test]
fn pool_exact_out_round_trip() {
    let mut pool = traded_pool();
    let t = execute_exact_out(&mut pool, 9_871, 10_100, false, oracle(10000, 0), 0).unwrap();
    // Two floor divisions leave the input two units short of the first swap's.
    assert_eq!(t.amount_in, 9_998);
    assert!(t.amount_in + 2 >= 10_000 && t.amount_in <= 10_001);
    assert_eq!(t.amount_out, 9_871);
    assert_eq!(t.fee, 29);
    assert!(!t.rebalanced);
    assert_eq!(pool.cumulative_fees_a, 30 + 29);
    assert_eq!(pool.cumulative_fees_b, 0);
    assert_eq!(pool.reserves_a, 1_010_000 + 9_998);
    assert_eq!(pool.reserves_b, 990_129 - 9_871);
}

#[test]
fn exact_out_slippage_and_liquidity() {
    let mut pool = traded_pool();
    let before = pool;
    let r = execute_exact_out(&mut pool, 9_871, 9_000, false, oracle(10000, 0), 0);
    assert_eq!(r, Err(PoolError::SlippageExceeded));
    let r = execute_exact_out(&mut pool, 1_000_015, u64::MAX, false, oracle(10000, 0), 0);
    assert_eq!(r, Err(PoolError::InsufficientLiquidity));
    assert_eq!(pool, before);
}

#[test]
fn pool_inventory_skew_up() {
    let mut pool = traded_pool();
    update_inventory_params(&mut pool, &key(7), 5000, 100).unwrap();
    let t = execute_exact_in(&mut pool, 10_000, 0, true, oracle(11_000, 0), 0).unwrap();
    assert_eq!(skew_factor(5000, 11_000, 10_000), 10_500);
    assert_eq!(t.amount_out, 9_871 * 10_500 / 10_000);
    assert_eq!(t.amount_out, 10_364);
    assert!(t.rebalanced);
    assert_eq!(pool.last_rebalance_price, 11_000);
    assert_eq!(pool.virtual_reserves_a, 961_327);
    assert_eq!(pool.virtual_reserves_b, 1_039_772);
}

#[test]
fn pool_rebalance_beyond_threshold() {
    let mut pool = traded_pool();
    let t = execute_exact_in(&mut pool, 10_000, 0, true, oracle(10_200, 0), 0).unwrap();
    assert!(t.rebalanced);
    assert_eq!(t.amount_out, 9_871);
    assert_eq!(pool.last_rebalance_price, 10_200);
    let k = (1_000_015u128 + 10_000) * (1_000_015u128 - 9_871);
    let va = pool.virtual_reserves_a as u128;
    let vb = pool.virtual_reserves_b as u128;
    assert_eq!((va, vb), (1_000_030, 1_000_030));
    assert!(va * vb <= k);
    assert!(k - va * vb <= 2 * (va + vb));
}

#[test]
fn swap_without_rebalance_keeps_curve_and_books_fee() {
    let mut pool = traded_pool();
    let k0 = pool.virtual_reserves_a as u128 * pool.virtual_reserves_b as u128;
    let before = pool;
    let t = execute_exact_in(&mut pool, 50_000, 0, false, oracle(10_050, 3), 5).unwrap();
    assert!(!t.rebalanced);
    let k1 = pool.virtual_reserves_a as u128 * pool.virtual_reserves_b as u128;
    assert!(k1 >= k0);
    assert_eq!(t.fee, 150);
    assert_eq!(pool.cumulative_fees_b, before.cumulative_fees_b + 150);
    assert_eq!(pool.cumulative_fees_a, before.cumulative_fees_a);
    assert_eq!(pool.reserves_b, before.reserves_b + 50_000);
    assert_eq!(pool.virtual_reserves_b, before.virtual_reserves_b + 50_000);
    assert_eq!(pool.reserves_a, before.reserves_a - t.amount_out);
    assert_eq!(pool.virtual_reserves_a, before.virtual_reserves_a - t.amount_out);
}

#[test]
fn swap_beyond_physical_reserve_fails() {
    let mut pool = funded_pool();
    update_concentration(&mut pool, &key(7), 40_000).unwrap();
    let before = pool;
    let r = execute_exact_in(&mut pool, 3_000_000, 0, true, oracle(10000, 0), 0);
    assert_eq!(r, Err(PoolError::InsufficientLiquidity));
    assert_eq!(pool, before);
}

#[test]
fn rebalance_is_a_fixed_point() {
    let mut pool = traded_pool();
    perform_rebalance(&mut pool, 12_345, 9).unwrap();
    assert_eq!(pool.last_rebalance_price, 12_345);
    assert_eq!(pool.last_rebalance_slot, 9);
    assert!(!should_rebalance(&pool, 12_345));
    let before = pool;
    assert_eq!(rebalance_v2(&mut pool, &key(7), 12_345, 10), Ok(false));
    assert_eq!(pool, before);
}

#[test]
fn rebalance_trigger_and_errors() {
    let mut pool = traded_pool();
    assert!(!should_rebalance(&pool, 10_100));
    assert!(should_rebalance(&pool, 10_101));
    assert!(should_rebalance(&pool, 9_899));
    assert!(should_rebalance(&funded_pool(), 10_000));
    assert_eq!(rebalance_v2(&mut pool, &key(9), 20_000, 1), Err(PoolError::Unauthorized));
    assert_eq!(rebalance_v2(&mut pool, &key(7), 40_000, 1), Ok(true));
    assert_eq!(pool.virtual_reserves_a, 500_007);
    assert_eq!(pool.virtual_reserves_b, 2_000_030);
    let before = pool;
    assert_eq!(perform_rebalance(&mut pool, 0, 2), Err(PoolError::RebalanceDegenerate));
    assert_eq!(pool, before);
    let mut empty = blank_pool();
    assert_eq!(perform_rebalance(&mut empty, 10_000, 2), Err(PoolError::RebalanceDegenerate));
}

#[test]
fn admin_operations() {
    let mut pool = blank_pool();
    let mut bad = params();
    bad.fee_numerator = 0;
    assert_eq!(initialize_pool(&mut pool, accounts(), bad), Err(PoolError::BadInstruction));
    assert_eq!(pool, blank_pool());
    initialize_pool(&mut pool, accounts(), params()).unwrap();
    assert!(pool.is_initialized);
    assert_eq!(pool.authority, key(7));
    assert_eq!(pool.oracle_account, key(5));
    assert_eq!(pool.fee_numerator, 30);
    assert_eq!(
        initialize_pool(&mut pool, accounts(), params()),
        Err(PoolError::AlreadyInitialized)
    );
    pool.reserves_a = 500;
    pool.reserves_b = 700;
    pool.last_rebalance_price = 10_000;
    assert_eq!(update_concentration(&mut pool, &key(8), 20_000), Err(PoolError::Unauthorized));
    update_concentration(&mut pool, &key(7), 20_000).unwrap();
    assert_eq!(pool.concentration_factor, 20_000);
    assert_eq!(pool.virtual_reserves_a, 1_000);
    assert_eq!(pool.virtual_reserves_b, 1_400);
    assert_eq!(pool.last_rebalance_price, 0);
    pool.reserves_a = u64::MAX;
    let before = pool;
    assert_eq!(update_concentration(&mut pool, &key(7), 20_000), Err(PoolError::MathOverflow));
    assert_eq!(pool, before);
    assert_eq!(
        update_inventory_params(&mut pool, &key(1), 1, 2),
        Err(PoolError::Unauthorized)
    );
    update_inventory_params(&mut pool, &key(7), 1, 2).unwrap();
    assert_eq!((pool.inventory_exponent, pool.rebalance_threshold), (1, 2));
    assert!(key(3).same_as(&key(3)));
    assert!(!key(3).same_as(&key(4)));
}

#[test]
fn decode_instructions() {
    let mut swap = vec![1u8];
    swap.extend_from_slice(&10_000u64.to_le_bytes());
    swap.extend_from_slice(&9_000u64.to_le_bytes());
    swap.push(1);
    assert_eq!(
        decode_instruction(&swap),
        Ok(LifinityInstruction::SwapExactInput {
            amount_in: 10_000,
            minimum_amount_out: 9_000,
            is_base_input: true
        })
    );
    swap[17] = 2;
    assert_eq!(decode_instruction(&swap), Err(PoolError::BadInstruction));

    let mut init = vec![0u8];
    init.extend_from_slice(&10_000u64.to_le_bytes());
    init.extend_from_slice(&5u64.to_le_bytes());
    init.extend_from_slice(&100u64.to_le_bytes());
    init.extend_from_slice(&30u16.to_le_bytes());
    init.extend_from_slice(&10_000u16.to_le_bytes());
    init.extend_from_slice(&u64::MAX.to_le_bytes());
    assert_eq!(
        decode_instruction(&init),
        Ok(LifinityInstruction::InitializePool {
            concentration_factor: 10_000,
            inventory_exponent: 5,
            rebalance_threshold: 100,
            fee_numerator: 30,
            fee_denominator: 10_000,
            oracle_staleness_threshold: u64::MAX,
        })
    );
    assert_eq!(decode_instruction(&[3]), Ok(LifinityInstruction::QueryPoolState));
    assert_eq!(decode_instruction(&[4]), Ok(LifinityInstruction::RebalanceV2));
    assert_eq!(decode_instruction(&[4, 0]), Err(PoolError::BadInstruction));
    assert_eq!(decode_instruction(&[]), Err(PoolError::BadInstruction));
    assert_eq!(decode_instruction(&[9]), Err(PoolError::BadInstruction));
    let mut conc = vec![5u8];
    conc.extend_from_slice(&0x0102_0304_0506_0708u64.to_le_bytes());
    assert_eq!(
        decode_instruction(&conc),
        Ok(LifinityInstruction::UpdateConcentration {
            new_concentration_factor: 0x0102_0304_0506_0708
        })
    );
}

#[test]
fn account_readers() {
    let bytes = 0x1122_3344_5566_7788u64.to_le_bytes();
    assert_eq!(get_oracle_price(&bytes), Ok(0x1122_3344_5566_7788));
    assert_eq!(get_oracle_price(&bytes[..7]), Err(PoolError::OracleInvalid));
    let mut clock = 42u64.to_le_bytes().to_vec();
    clock.extend_from_slice(&[0xff; 32]);
    assert_eq!(get_current_slot(&clock), Ok(42));
    assert_eq!(get_current_slot(&[1, 2, 3]), Err(PoolError::BadInstruction));
}

#[test]
fn swap_may_not_empty_the_physical_reserve() {
    let mut pool = funded_pool();
    pool.reserves_b = 9_871;
    pool.last_rebalance_price = 10_000;
    let before = pool;
    let r = execute_exact_in(&mut pool, 10_000, 0, true, oracle(10_000, 0), 0);
    assert_eq!(r, Err(PoolError::InsufficientLiquidity));
    assert_eq!(pool, before);
    pool.reserves_b = 9_872;
    let t = execute_exact_in(&mut pool, 10_000, 0, true, oracle(10_000, 0), 0).unwrap();
    assert_eq!(t.amount_out, 9_871);
    assert_eq!(pool.reserves_b, 1);
}

#[test]
fn zero_cost_exact_out_is_rejected() {
    let mut pool = funded_pool();
    pool.virtual_reserves_a = 1_000;
    assert_eq!(quote_exact_out(&pool, 500, false), Ok((0, 0)));
    let before = pool;
    let r = execute_exact_out(&mut pool, 500, u64::MAX, false, oracle(10_000, 0), 0);
    assert_eq!(r, Err(PoolError::ZeroNet));
    assert_eq!(pool, before);
}

#[test]
fn rebalance_drift_is_bounded() {
    let mut pool = funded_pool();
    pool.virtual_reserves_a = 3;
    pool.virtual_reserves_b = 5;
    perform_rebalance(&mut pool, 3_721, 1).unwrap();
    assert_eq!((pool.virtual_reserves_a, pool.virtual_reserves_b), (4, 1));
    let lost = 15 - 4;
    assert_eq!(lost, 2 * (4 + 1) + 1);
}

#[test]
fn reserves_stay_positive_after_swaps() {
    let mut pool = traded_pool();
    execute_exact_out(&mut pool, 500_000, u64::MAX, false, oracle(10_000, 0), 0).unwrap();
    execute_exact_in(&mut pool, 77, 0, false, oracle(10_000, 0), 0).unwrap();
    assert!(pool.reserves_a > 0 && pool.reserves_b > 0);
    assert!(pool.virtual_reserves_a > 0 && pool.virtual_reserves_b > 0);
}
