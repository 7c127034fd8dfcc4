//! Protocol constants and rounding tolerances.
use vstd::prelude::*;

verus! {

pub const BASIS_POINTS: u32 = 10_000;
pub const WAD: u128 = 1_000_000_000_000_000_000;
pub const RAY: u128 = 1_000_000_000_000_000_000_000_000_000;
pub const DECIMALS: u32 = 7;
/// 10^DECIMALS: one whole token in smallest units.
pub const TOKEN_UNIT: u128 = 10_000_000;
pub const INITIAL_BALANCE: i128 = 1_000_000_000_000_000;
pub const SECONDS_PER_YEAR: u128 = 31_536_000;

/// The largest amount that can still be scaled by a RAY and by a thousandfold margin.
pub const MAX_SAFE_AMOUNT: u128 = u128::MAX / (RAY * 1000);
pub const MIN_AMOUNT: u128 = 1;
pub const MAX_PRICE: u128 = 1_000_000_000_000_000_000;
pub const MIN_PRICE: u128 = 1_000_000_000;
pub const ZERO_PRICE: u128 = 0;
pub const DEFAULT_LIQUIDATION_CLOSE_FACTOR: u128 = 5000;

pub const FLASH_LOAN_PREMIUM_BPS: u128 = 9;

pub const MAX_ROUNDING_PER_OP: i128 = 5;
pub const BASE_TOLERANCE: i128 = 50;
pub const TOLERANCE_PER_OP: i128 = 5;
pub const MAX_CUMULATIVE_ROUNDING: i128 = 5_000;
pub const DUST_THRESHOLD: u128 = 50;
pub const MIN_MEANINGFUL_AMOUNT: u128 = 10;
pub const ROUNDING_TRACK_MULTIPLIER: i128 = 5;

/// Rounding budget after `operation_count` operations.
pub open spec fn tolerance_spec(operation_count: int) -> int {
    BASE_TOLERANCE + operation_count * TOLERANCE_PER_OP
}

/// Rounding budget after `operation_count` operations: a base allowance plus a
/// fixed amount per operation.
pub fn calculate_tolerance(operation_count: u64) -> (t: i128)
    ensures
        t == tolerance_spec(operation_count as int),
        t >= BASE_TOLERANCE,
{
    BASE_TOLERANCE + (operation_count as i128 * TOLERANCE_PER_OP)
}

/// The number of whole tokens in `amount`, clamped to 1..=100.
pub open spec fn amount_factor(amount: int) -> int {
    let whole = amount / (TOKEN_UNIT as int);
    if whole < 1 {
        1
    } else if whole > 100 {
        100
    } else {
        whole
    }
}

/// Rounding budget that also grows (slightly) with the amount moved.
pub fn calculate_rounding_tolerance(amount: u128, operation_count: u64) -> (t: i128)
    ensures
        t == tolerance_spec(operation_count as int) + amount_factor(amount as int)
            * MAX_ROUNDING_PER_OP / 100,
{
    let whole = (amount / TOKEN_UNIT) as i128;
    let amount_factor: i128 = if whole < 1 {
        1
    } else if whole > 100 {
        100
    } else {
        whole
    };
    let scaled_tolerance = (amount_factor * MAX_ROUNDING_PER_OP) / 100;
    BASE_TOLERANCE + (operation_count as i128 * TOLERANCE_PER_OP) + scaled_tolerance
}

} // verus!
