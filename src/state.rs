//! The pool's persistent state, its errors and the values exchanged with the host.
use vstd::prelude::*;

verus! {

/// The kinds of failure of an instruction; each leaves the pool untouched.
#[derive(Clone, Copy, Debug, PartialEq, Eq, Structural)]
pub enum PoolError {
    AlreadyInitialized,
    Unauthorized,
    OracleStale,
    OracleInvalid,
    SlippageExceeded,
    InsufficientLiquidity,
    ZeroLiquidity,
    ZeroNet,
    MathOverflow,
    RebalanceDegenerate,
    BadInstruction,
}

/// A 32-byte account key.
#[derive(Clone, Copy, Debug, PartialEq, Eq)]
pub struct Pubkey {
    pub bytes: [u8; 32],
}

impl Pubkey {
    /// Whether two keys hold the same bytes.
    pub fn same_as(&self, other: &Pubkey) -> (r: bool)
        ensures
            r == (self.bytes@ == other.bytes@),
    {
        let mut i: usize = 0;
        while i < 32
            invariant
                0 <= i <= 32,
                self.bytes@.len() == 32,
                other.bytes@.len() == 32,
                forall|j: int| 0 <= j < i ==> self.bytes@[j] == other.bytes@[j],
            decreases 32 - i,
        {
            if self.bytes[i] != other.bytes[i] {
                return false;
            }
            i = i + 1;
        }
        assert(self.bytes@ =~= other.bytes@);
        true
    }
}

/// The single persistent entity of the engine.
#[derive(Clone, Copy, Debug, PartialEq, Eq)]
pub struct PoolState {
    pub is_initialized: bool,
    pub bump_seed: u8,
    /// Basis-point multiplier from physical to virtual reserves.
    pub concentration_factor: u64,
    /// Basis-point sensitivity of the inventory skew.
    pub inventory_exponent: u64,
    /// Basis-point deviation from the reference price that triggers a rebalance.
    pub rebalance_threshold: u64,
    pub token_a_mint: Pubkey,
    pub token_b_mint: Pubkey,
    pub token_a_vault: Pubkey,
    pub token_b_vault: Pubkey,
    pub oracle_account: Pubkey,
    pub reserves_a: u64,
    pub reserves_b: u64,
    pub virtual_reserves_a: u64,
    pub virtual_reserves_b: u64,
    /// Oracle price of the last rebalance; zero while never rebalanced.
    pub last_rebalance_price: u64,
    pub last_rebalance_slot: u64,
    pub fee_numerator: u16,
    pub fee_denominator: u16,
    pub cumulative_fees_a: u64,
    pub cumulative_fees_b: u64,
    /// Largest accepted age of an oracle sample, in slots.
    pub oracle_staleness_threshold: u64,
    pub authority: Pubkey,
}

impl PoolState {
    /// The fee parameters are a proper fraction on the basis-point scale.
    pub open spec fn fee_ok(self) -> bool {
        0 < self.fee_numerator < self.fee_denominator <= 10000
    }

    /// The curve constant `k` of the virtual reserves.
    pub open spec fn curve_k(self) -> int {
        self.virtual_reserves_a as int * self.virtual_reserves_b as int
    }
}

/// An oracle sample handed in by the host.
#[derive(Clone, Copy, Debug, PartialEq, Eq, Structural)]
pub struct OraclePrice {
    /// Units of B per unit of A, in basis points.
    pub price: u64,
    pub publish_slot: u64,
}

/// What a successful swap did.
#[derive(Clone, Copy, Debug, PartialEq, Eq, Structural)]
pub struct TradeResult {
    pub amount_in: u64,
    pub amount_out: u64,
    pub fee: u64,
    pub rebalanced: bool,
}

} // verus!
