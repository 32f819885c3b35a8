//! The instruction set and its byte layout: a leading tag byte, then the
//! fields in order, integers little-endian, booleans as one `0`/`1` byte.
use vstd::prelude::*;

use crate::state::PoolError;

verus! {

/// The operations the engine offers.
#[derive(Clone, Copy, Debug, PartialEq, Eq, Structural)]
pub enum LifinityInstruction {
    InitializePool {
        concentration_factor: u64,
        inventory_exponent: u64,
        rebalance_threshold: u64,
        fee_numerator: u16,
        fee_denominator: u16,
        oracle_staleness_threshold: u64,
    },
    SwapExactInput { amount_in: u64, minimum_amount_out: u64, is_base_input: bool },
    SwapExactOutput { amount_out: u64, maximum_amount_in: u64, is_base_output: bool },
    QueryPoolState,
    RebalanceV2,
    UpdateConcentration { new_concentration_factor: u64 },
    UpdateInventoryParams { new_inventory_exponent: u64, new_rebalance_threshold: u64 },
}

/// The little-endian value of the two bytes at `i`.
pub open spec fn le_u16_at(s: Seq<u8>, i: int) -> int {
    s[i] + 256 * s[i + 1]
}

/// The little-endian value of the eight bytes at `i`.
pub open spec fn le_u64_at(s: Seq<u8>, i: int) -> int {
    s[i] + 256 * (s[i + 1] + 256 * (s[i + 2] + 256 * (s[i + 3] + 256 * (s[i + 4] + 256 * (s[i
        + 5] + 256 * (s[i + 6] + 256 * s[i + 7]))))))
}

/// Reads the little-endian `u16` at `at`.
fn read_u16_le(data: &[u8], at: usize) -> (r: u16)
    requires
        at + 2 <= data@.len(),
    ensures
        r as int == le_u16_at(data@, at as int),
{
    let n = data.len();
    assert(at + 1 < n);
    let hi = data[at + 1] as u16;
    let lo = data[at] as u16;
    hi * 256 + lo
}

/// Reads the little-endian `u64` at `at`.
fn read_u64_le(data: &[u8], at: usize) -> (r: u64)
    requires
        at + 8 <= data@.len(),
    ensures
        r as int == le_u64_at(data@, at as int),
{
    let n = data.len();
    assert(at + 7 < n);
    let mut v: u64 = data[at + 7] as u64;
    v = v * 256 + data[at + 6] as u64;
    v = v * 256 + data[at + 5] as u64;
    v = v * 256 + data[at + 4] as u64;
    v = v * 256 + data[at + 3] as u64;
    v = v * 256 + data[at + 2] as u64;
    v = v * 256 + data[at + 1] as u64;
    v = v * 256 + data[at] as u64;
    v
}

/// The instruction that `s` encodes, or `BadInstruction` when `s` has an
/// unknown tag, the wrong length for its tag, or a boolean byte other than `0`/`1`.
pub open spec fn decode_spec(s: Seq<u8>) -> Result<LifinityInstruction, PoolError> {
    if s.len() == 37 && s[0] == 0 {
        Ok(
            LifinityInstruction::InitializePool {
                concentration_factor: le_u64_at(s, 1) as u64,
                inventory_exponent: le_u64_at(s, 9) as u64,
                rebalance_threshold: le_u64_at(s, 17) as u64,
                fee_numerator: le_u16_at(s, 25) as u16,
                fee_denominator: le_u16_at(s, 27) as u16,
                oracle_staleness_threshold: le_u64_at(s, 29) as u64,
            },
        )
    } else if s.len() == 18 && s[0] == 1 && s[17] <= 1 {
        Ok(
            LifinityInstruction::SwapExactInput {
                amount_in: le_u64_at(s, 1) as u64,
                minimum_amount_out: le_u64_at(s, 9) as u64,
                is_base_input: s[17] == 1,
            },
        )
    } else if s.len() == 18 && s[0] == 2 && s[17] <= 1 {
        Ok(
            LifinityInstruction::SwapExactOutput {
                amount_out: le_u64_at(s, 1) as u64,
                maximum_amount_in: le_u64_at(s, 9) as u64,
                is_base_output: s[17] == 1,
            },
        )
    } else if s.len() == 1 && s[0] == 3 {
        Ok(LifinityInstruction::QueryPoolState)
    } else if s.len() == 1 && s[0] == 4 {
        Ok(LifinityInstruction::RebalanceV2)
    } else if s.len() == 9 && s[0] == 5 {
        Ok(
            LifinityInstruction::UpdateConcentration {
                new_concentration_factor: le_u64_at(s, 1) as u64,
            },
        )
    } else if s.len() == 17 && s[0] == 6 {
        Ok(
            LifinityInstruction::UpdateInventoryParams {
                new_inventory_exponent: le_u64_at(s, 1) as u64,
                new_rebalance_threshold: le_u64_at(s, 9) as u64,
            },
        )
    } else {
        Err(PoolError::BadInstruction)
    }
}

/// Decodes an instruction payload.
pub fn decode_instruction(data: &[u8]) -> (r: Result<LifinityInstruction, PoolError>)
    ensures
        r == decode_spec(data@),
{
    let n = data.len();
    if n == 0 {
        return Err(PoolError::BadInstruction);
    }
    let tag = data[0];
    if tag == 0 && n == 37 {
        Ok(
            LifinityInstruction::InitializePool {
                concentration_factor: read_u64_le(data, 1),
                inventory_exponent: read_u64_le(data, 9),
                rebalance_threshold: read_u64_le(data, 17),
                fee_numerator: read_u16_le(data, 25),
                fee_denominator: read_u16_le(data, 27),
                oracle_staleness_threshold: read_u64_le(data, 29),
            },
        )
    } else if tag == 1 && n == 18 && data[17] <= 1 {
        Ok(
            LifinityInstruction::SwapExactInput {
                amount_in: read_u64_le(data, 1),
                minimum_amount_out: read_u64_le(data, 9),
                is_base_input: data[17] == 1,
            },
        )
    } else if tag == 2 && n == 18 && data[17] <= 1 {
        Ok(
            LifinityInstruction::SwapExactOutput {
                amount_out: read_u64_le(data, 1),
                maximum_amount_in: read_u64_le(data, 9),
                is_base_output: data[17] == 1,
            },
        )
    } else if tag == 3 && n == 1 {
        Ok(LifinityInstruction::QueryPoolState)
    } else if tag == 4 && n == 1 {
        Ok(LifinityInstruction::RebalanceV2)
    } else if tag == 5 && n == 9 {
        Ok(
            LifinityInstruction::UpdateConcentration {
                new_concentration_factor: read_u64_le(data, 1),
            },
        )
    } else if tag == 6 && n == 17 {
        Ok(
            LifinityInstruction::UpdateInventoryParams {
                new_inventory_exponent: read_u64_le(data, 1),
                new_rebalance_threshold: read_u64_le(data, 9),
            },
        )
    } else {
        Err(PoolError::BadInstruction)
    }
}

/// The oracle price held little-endian in the first eight bytes of the oracle
/// account's data; `OracleInvalid` when the data is shorter.
pub fn get_oracle_price(data: &[u8]) -> (r: Result<u64, PoolError>)
    ensures
        data@.len() < 8 ==> r == Err::<u64, PoolError>(PoolError::OracleInvalid),
        data@.len() >= 8 ==> r == Ok::<u64, PoolError>(le_u64_at(data@, 0) as u64),
{
    if data.len() < 8 {
        return Err(PoolError::OracleInvalid);
    }
    Ok(read_u64_le(data, 0))
}

/// The current slot, held little-endian in the first eight bytes of the clock
/// account's data; `BadInstruction` when the data is shorter.
pub fn get_current_slot(clock_data: &[u8]) -> (r: Result<u64, PoolError>)
    ensures
        clock_data@.len() < 8 ==> r == Err::<u64, PoolError>(PoolError::BadInstruction),
        clock_data@.len() >= 8 ==> r == Ok::<u64, PoolError>(le_u64_at(clock_data@, 0) as u64),
{
    if clock_data.len() < 8 {
        return Err(PoolError::BadInstruction);
    }
    Ok(read_u64_le(clock_data, 0))
}

} // verus!
