//! Plain-value views of what the fuzz targets read from the protocol, and the
//! mock price feed they install.
use vstd::prelude::*;

verus! {

/// Reserve data as the router reports it.
#[derive(Clone, Copy, Debug, PartialEq, Eq, Structural)]
pub struct ReserveState {
    pub liquidity_index: u128,
    pub variable_borrow_index: u128,
    pub current_liquidity_rate: u128,
    pub current_variable_borrow_rate: u128,
    pub last_update_timestamp: u64,
}

/// A user's account data as the router reports it (amounts in base currency).
#[derive(Clone, Copy, Debug, PartialEq, Eq, Structural)]
pub struct UserAccountData {
    pub total_collateral_base: u128,
    pub total_debt_base: u128,
    pub available_borrows_base: u128,
    pub ltv: u128,
    pub health_factor: u128,
}

/// Price data returned by the mock price feed.
#[derive(Clone, Copy, Debug, PartialEq, Eq, Structural)]
pub struct PriceData {
    pub price: i128,
    pub timestamp: u64,
}

/// Price the mock feed reports for every asset (1 USD with 14 decimals).
pub const MOCK_FEED_PRICE: i128 = 1_000_000_000_000_000;

/// Mock price feed: 14 decimals, a constant price stamped with the current
/// ledger time.
#[derive(Clone, Copy, Debug)]
pub struct MockReflector;

impl MockReflector {
    /// Number of decimals of the reported prices.
    pub fn decimals() -> (d: u32)
        ensures
            d == 14,
    {
        14
    }

    /// The last price of any asset at ledger time `now`.
    pub fn lastprice(now: u64) -> (p: Option<PriceData>)
        ensures
            p == Some(PriceData { price: MOCK_FEED_PRICE, timestamp: now }),
    {
        Some(PriceData { price: MOCK_FEED_PRICE, timestamp: now })
    }
}

} // verus!
