//! Pool creation and the authority-gated operations.
use vstd::prelude::*;

use crate::fixed_math::{mul_div, mul_div_spec, BP};
use crate::rebalance::{perform_rebalance, rebalance_spec, should_rebalance, should_rebalance_spec};
use crate::state::{PoolError, PoolState, Pubkey};

verus! {

/// The accounts a pool is created with.
#[derive(Clone, Copy, Debug, PartialEq, Eq)]
pub struct PoolAccounts {
    pub authority: Pubkey,
    pub token_a_mint: Pubkey,
    pub token_b_mint: Pubkey,
    pub token_a_vault: Pubkey,
    pub token_b_vault: Pubkey,
    pub oracle_account: Pubkey,
}

/// The parameters a pool is created with.
#[derive(Clone, Copy, Debug, PartialEq, Eq, Structural)]
pub struct PoolParams {
    pub concentration_factor: u64,
    pub inventory_exponent: u64,
    pub rebalance_threshold: u64,
    pub fee_numerator: u16,
    pub fee_denominator: u16,
    pub oracle_staleness_threshold: u64,
}

/// A fresh pool: the given parameters and accounts, empty reserves, no
/// reference price and no fees collected.
pub open spec fn fresh_pool(accounts: PoolAccounts, params: PoolParams) -> PoolState {
    PoolState {
        is_initialized: true,
        bump_seed: 0,
        concentration_factor: params.concentration_factor,
        inventory_exponent: params.inventory_exponent,
        rebalance_threshold: params.rebalance_threshold,
        token_a_mint: accounts.token_a_mint,
        token_b_mint: accounts.token_b_mint,
        token_a_vault: accounts.token_a_vault,
        token_b_vault: accounts.token_b_vault,
        oracle_account: accounts.oracle_account,
        reserves_a: 0,
        reserves_b: 0,
        virtual_reserves_a: 0,
        virtual_reserves_b: 0,
        last_rebalance_price: 0,
        last_rebalance_slot: 0,
        fee_numerator: params.fee_numerator,
        fee_denominator: params.fee_denominator,
        cumulative_fees_a: 0,
        cumulative_fees_b: 0,
        oracle_staleness_threshold: params.oracle_staleness_threshold,
        authority: accounts.authority,
    }
}

/// Whether `signer` is the pool's authority.
pub open spec fn is_authority(pool: PoolState, signer: Pubkey) -> bool {
    signer.bytes@ == pool.authority.bytes@
}

/// Initializes `pool` once: fails with `AlreadyInitialized` on an initialized
/// pool, and with `BadInstruction` unless `0 < fee_numerator < fee_denominator <= 10000`.
pub fn initialize_pool(pool: &mut PoolState, accounts: PoolAccounts, params: PoolParams) -> (r:
    Result<(), PoolError>)
    ensures
        old(pool).is_initialized ==> r == Err::<(), PoolError>(PoolError::AlreadyInitialized),
        !old(pool).is_initialized && !(0 < params.fee_numerator < params.fee_denominator
            <= 10000) ==> r == Err::<(), PoolError>(PoolError::BadInstruction),
        r is Ok <==> !old(pool).is_initialized && 0 < params.fee_numerator
            < params.fee_denominator <= 10000,
        r is Ok ==> *final(pool) == fresh_pool(accounts, params) && final(pool).fee_ok(),
        r is Err ==> *final(pool) == *old(pool),
{
    if pool.is_initialized {
        return Err(PoolError::AlreadyInitialized);
    }
    if !(0 < params.fee_numerator && params.fee_numerator < params.fee_denominator
        && params.fee_denominator <= 10000) {
        return Err(PoolError::BadInstruction);
    }
    *pool = PoolState {
        is_initialized: true,
        bump_seed: 0,
        concentration_factor: params.concentration_factor,
        inventory_exponent: params.inventory_exponent,
        rebalance_threshold: params.rebalance_threshold,
        token_a_mint: accounts.token_a_mint,
        token_b_mint: accounts.token_b_mint,
        token_a_vault: accounts.token_a_vault,
        token_b_vault: accounts.token_b_vault,
        oracle_account: accounts.oracle_account,
        reserves_a: 0,
        reserves_b: 0,
        virtual_reserves_a: 0,
        virtual_reserves_b: 0,
        last_rebalance_price: 0,
        last_rebalance_slot: 0,
        fee_numerator: params.fee_numerator,
        fee_denominator: params.fee_denominator,
        cumulative_fees_a: 0,
        cumulative_fees_b: 0,
        oracle_staleness_threshold: params.oracle_staleness_threshold,
        authority: accounts.authority,
    };
    Ok(())
}

/// Whether the virtual reserves can be recomputed from the physical ones.
pub open spec fn virtuals_fit(pool: PoolState) -> bool {
    mul_div_spec(pool.reserves_a as int, pool.concentration_factor as int, BP as int) <= u64::MAX
        && mul_div_spec(pool.reserves_b as int, pool.concentration_factor as int, BP as int)
        <= u64::MAX
}

/// The pool with virtual reserves `reserves_x * concentration_factor / 10000`.
pub open spec fn recalculated(pool: PoolState) -> PoolState {
    PoolState {
        virtual_reserves_a: mul_div_spec(
            pool.reserves_a as int,
            pool.concentration_factor as int,
            BP as int,
        ) as u64,
        virtual_reserves_b: mul_div_spec(
            pool.reserves_b as int,
            pool.concentration_factor as int,
            BP as int,
        ) as u64,
        ..pool
    }
}

/// Sets each virtual reserve to its physical reserve scaled by the
/// concentration factor; fails with `MathOverflow`, changing nothing, when one
/// does not fit.
pub fn recalculate_virtual_reserves(pool: &mut PoolState) -> (r: Result<(), PoolError>)
    ensures
        r is Ok <==> virtuals_fit(*old(pool)),
        r is Ok ==> *final(pool) == recalculated(*old(pool)),
        r is Err ==> r == Err::<(), PoolError>(PoolError::MathOverflow) && *final(pool) == *old(
            pool,
        ),
{
    let va = match mul_div(pool.reserves_a, pool.concentration_factor, BP) {
        Ok(v) => v,
        Err(e) => {
            return Err(e);
        },
    };
    let vb = match mul_div(pool.reserves_b, pool.concentration_factor, BP) {
        Ok(v) => v,
        Err(e) => {
            return Err(e);
        },
    };
    pool.virtual_reserves_a = va;
    pool.virtual_reserves_b = vb;
    Ok(())
}

/// The pool after a change of concentration factor: virtual reserves
/// recomputed and the reference price cleared.
pub open spec fn reconcentrated(pool: PoolState, new_concentration_factor: u64) -> PoolState {
    PoolState {
        last_rebalance_price: 0,
        ..recalculated(PoolState { concentration_factor: new_concentration_factor, ..pool })
    }
}

/// Authority-gated: sets the concentration factor, recomputes the virtual
/// reserves from the physical ones and clears the reference price.
pub fn update_concentration(pool: &mut PoolState, signer: &Pubkey, new_concentration_factor: u64) -> (r:
    Result<(), PoolError>)
    ensures
        !is_authority(*old(pool), *signer) ==> r == Err::<(), PoolError>(PoolError::Unauthorized),
        is_authority(*old(pool), *signer) ==> (r is Ok <==> virtuals_fit(
            PoolState { concentration_factor: new_concentration_factor, ..*old(pool) },
        )),
        r is Ok ==> *final(pool) == reconcentrated(*old(pool), new_concentration_factor),
        r is Err ==> *final(pool) == *old(pool),
        is_authority(*old(pool), *signer) && r is Err ==> r == Err::<(), PoolError>(
            PoolError::MathOverflow,
        ),
{
    if !signer.same_as(&pool.authority) {
        return Err(PoolError::Unauthorized);
    }
    let mut next = *pool;
    next.concentration_factor = new_concentration_factor;
    match recalculate_virtual_reserves(&mut next) {
        Ok(()) => {},
        Err(e) => {
            return Err(e);
        },
    }
    next.last_rebalance_price = 0;
    *pool = next;
    Ok(())
}

/// Authority-gated: sets the inventory exponent and the rebalance threshold.
pub fn update_inventory_params(
    pool: &mut PoolState,
    signer: &Pubkey,
    new_inventory_exponent: u64,
    new_rebalance_threshold: u64,
) -> (r: Result<(), PoolError>)
    ensures
        r is Ok <==> is_authority(*old(pool), *signer),
        r is Err ==> r == Err::<(), PoolError>(PoolError::Unauthorized) && *final(pool) == *old(
            pool,
        ),
        r is Ok ==> *final(pool) == (PoolState {
            inventory_exponent: new_inventory_exponent,
            rebalance_threshold: new_rebalance_threshold,
            ..*old(pool)
        }),
{
    if !signer.same_as(&pool.authority) {
        return Err(PoolError::Unauthorized);
    }
    pool.inventory_exponent = new_inventory_exponent;
    pool.rebalance_threshold = new_rebalance_threshold;
    Ok(())
}

/// Outcome of an explicit rebalance request: the pool and whether it was
/// rebalanced, or the error.
pub open spec fn rebalance_v2_spec(
    pool: PoolState,
    signer: Pubkey,
    oracle_price: u64,
    current_slot: u64,
) -> Result<(PoolState, bool), PoolError> {
    if !is_authority(pool, signer) {
        Err(PoolError::Unauthorized)
    } else if !should_rebalance_spec(pool, oracle_price) {
        Ok((pool, false))
    } else {
        match rebalance_spec(pool, oracle_price, current_slot) {
            Ok(p) => Ok((p, true)),
            Err(e) => Err(e),
        }
    }
}

/// Authority-gated rebalance: recalibrates the pool onto `oracle_price` when
/// the trigger says so, and returns whether it did.
pub fn rebalance_v2(pool: &mut PoolState, signer: &Pubkey, oracle_price: u64, current_slot: u64) -> (r:
    Result<bool, PoolError>)
    ensures
        match r {
            Ok(done) => rebalance_v2_spec(*old(pool), *signer, oracle_price, current_slot) == Ok::<
                (PoolState, bool),
                PoolError,
            >((*final(pool), done)),
            Err(e) => rebalance_v2_spec(*old(pool), *signer, oracle_price, current_slot) == Err::<
                (PoolState, bool),
                PoolError,
            >(e) && *final(pool) == *old(pool),
        },
{
    if !signer.same_as(&pool.authority) {
        return Err(PoolError::Unauthorized);
    }
    if !should_rebalance(pool, oracle_price) {
        return Ok(false);
    }
    match perform_rebalance(pool, oracle_price, current_slot) {
        Ok(()) => Ok(true),
        Err(e) => Err(e),
    }
}

} // verus!
