use vstd::prelude::*;

verus! {

/// Tokens that a launchpad puts up for sale when its presale starts.
pub const LAUNCHPAD_PRESALE: u64 = 500_000_000_000_000_000;

/// Tokens that a launchpad keeps back for the AMM pool.
pub const LAUNCHPAD_RESERVE: u64 = 500_000_000_000_000_000;

/// Lamports paid per `PRICE_UNIT` tokens bought.
pub const PRESALE_PRICE: u64 = 220;

/// The number of token base units that `PRESALE_PRICE` lamports buy.
pub const PRICE_UNIT: u64 = 1_000_000_000;

/// Lamports of the presale treasury that go into the AMM pool
/// (and that the treasury must hold before the pool is made).
pub const POOL_SOL_LIQUIDITY: u64 = 100_000_000_000;

} // verus!
