//! Pricing and rebalancing engine of a two-asset concentrated-liquidity
//! market maker whose reference price comes from an oracle.
pub mod fixed_math;
pub mod state;
pub mod quoter;
pub mod skew;
pub mod rebalance;
pub mod swap;
pub mod laws;
pub mod admin;
pub mod instruction;
