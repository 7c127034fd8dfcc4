//! Liquidation target: liquidation outcome and reserve invariants.
use vstd::prelude::*;
use crate::targets::views::{ReserveState, UserAccountData};

pub use crate::targets::views::{MockReflector, PriceData};

verus! {

/// RAY constant (1e9 in this protocol)
pub const RAY: u128 = 1_000_000_000;
/// WAD constant for health factor (1e18)
pub const WAD: u128 = 1_000_000_000_000_000_000;
/// Base price with 14 decimals (1 USD)
pub const BASE_PRICE: u128 = 1_000_000_000_000_000;
/// Close factor: max 50% of debt can be liquidated
pub const CLOSE_FACTOR_BPS: u128 = 5000;
/// Liquidation bonus in basis points (5%)
pub const LIQUIDATION_BONUS_BPS: u128 = 500;

/// Operations that can occur during liquidation testing.
#[derive(Clone, Copy, Debug, PartialEq, Eq, Structural)]
pub enum LiquidationOperation {
    /// Drop the collateral asset price (in basis points, 0-10000)
    DropCollateralPrice { bps: u16 },
    /// Increase the debt asset price (in basis points, 0-10000)
    IncreaseDebtPrice { bps: u16 },
    /// Advance time to accrue interest
    AdvanceTime { seconds: u32 },
    /// Borrower supplies more collateral
    SupplyMoreCollateral { amount: u64 },
    /// Borrower repays some debt
    PartialRepay { amount: u64 },
    /// Attempt liquidation
    AttemptLiquidation { amount: u64, receive_a_token: bool },
}

/// Fuzz input of the liquidation target.
#[derive(Clone, Copy, Debug)]
pub struct LiquidationInput {
    /// Collateral amount supplied by borrower (clamped to reasonable range)
    pub collateral_amount: u64,
    /// Borrow percentage of max LTV (0-100, will be scaled to 0-80%)
    pub borrow_percentage: u8,
    /// Sequence of operations to execute
    pub operations: [Option<LiquidationOperation>; 8],
}

/// State before/after a liquidation.
#[derive(Clone, Copy, Debug)]
pub struct LiquidationSnapshot {
    /// Borrower's aToken (collateral) balance
    pub borrower_collateral: u128,
    /// Borrower's debt token balance
    pub borrower_debt: u128,
    /// Liquidator's aToken balance
    pub liquidator_collateral: u128,
    /// Liquidator's underlying token balance
    pub liquidator_underlying: u128,
    /// Borrower's health factor
    pub health_factor: u128,
    pub liquidity_index: u128,
    pub borrow_index: u128,
    pub atoken_supply: u128,
    pub debt_supply: u128,
    pub atoken_underlying: u128,
}

/// `x - y`, saturating at zero.
pub open spec fn sat_sub(x: int, y: int) -> int {
    if x < y {
        0
    } else {
        x - y
    }
}

/// What the liquidator received, in aTokens and underlying.
pub open spec fn liquidator_received(before: LiquidationSnapshot, after: LiquidationSnapshot) -> int {
    sat_sub(after.liquidator_collateral as int, before.liquidator_collateral as int) + sat_sub(
        after.liquidator_underlying as int,
        before.liquidator_underlying as int,
    )
}

/// Liquidation-specific invariants after a liquidation attempt.
///
/// A successful liquidation lowers (or keeps) the borrower's debt and
/// collateral, pays the liquidator something when there was debt to cover,
/// does not lower an underwater borrower's health factor while debt remains,
/// and covers at most the close factor of the debt (plus one unit).  A failed
/// one changes neither debt nor collateral.  Indices never decrease.
pub fn verify_liquidation_result(
    before: &LiquidationSnapshot,
    after: &LiquidationSnapshot,
    liquidation_succeeded: bool,
    debt_to_cover: u128,
) -> (ok: bool)
    requires
        liquidation_succeeded ==> liquidator_received(*before, *after) <= u128::MAX,
        liquidation_succeeded ==> before.borrower_debt * CLOSE_FACTOR_BPS <= u128::MAX,
    ensures
        ok == {
            &&& liquidation_succeeded ==> {
                &&& after.borrower_debt <= before.borrower_debt
                &&& after.borrower_collateral <= before.borrower_collateral
                &&& debt_to_cover > 0 && before.borrower_debt > 0 ==> liquidator_received(
                    *before,
                    *after,
                ) > 0
                &&& after.borrower_debt > 0 && before.health_factor < WAD ==> after.health_factor
                    >= before.health_factor
                &&& sat_sub(before.borrower_debt as int, after.borrower_debt as int)
                    <= before.borrower_debt * CLOSE_FACTOR_BPS / 10000 + 1
            }
            &&& !liquidation_succeeded ==> after.borrower_debt == before.borrower_debt
                && after.borrower_collateral == before.borrower_collateral
            &&& after.liquidity_index >= before.liquidity_index
            &&& after.borrow_index >= before.borrow_index
        },
        !liquidation_succeeded && *after == *before ==> ok,
        liquidation_succeeded && after.borrower_debt > before.borrower_debt ==> !ok,
        liquidation_succeeded && after.borrower_collateral > before.borrower_collateral ==> !ok,
        !liquidation_succeeded && (after.borrower_debt != before.borrower_debt
            || after.borrower_collateral != before.borrower_collateral) ==> !ok,
        after.liquidity_index < before.liquidity_index || after.borrow_index < before.borrow_index ==> !ok,
        liquidation_succeeded && before.borrower_debt > 2 && after.borrower_debt == 0 ==> !ok,
{
    let mut ok = true;
    if liquidation_succeeded {
        ok = ok && after.borrower_debt <= before.borrower_debt;
        ok = ok && after.borrower_collateral <= before.borrower_collateral;
        let received = after.liquidator_collateral.saturating_sub(before.liquidator_collateral)
            + after.liquidator_underlying.saturating_sub(before.liquidator_underlying);
        if debt_to_cover > 0 && before.borrower_debt > 0 {
            ok = ok && received > 0;
        }
        if after.borrower_debt > 0 && before.health_factor < WAD {
            ok = ok && after.health_factor >= before.health_factor;
        }
        let debt_reduction = before.borrower_debt.saturating_sub(after.borrower_debt);
        let max_allowed = (before.borrower_debt * CLOSE_FACTOR_BPS) / 10000 + 1;
        ok = ok && debt_reduction <= max_allowed;
    } else {
        ok = ok && after.borrower_debt == before.borrower_debt;
        ok = ok && after.borrower_collateral == before.borrower_collateral;
    }
    ok = ok && after.liquidity_index >= before.liquidity_index;
    ok = ok && after.borrow_index >= before.borrow_index;
    ok
}

/// Reserve and balance invariants of the liquidation target: no negative
/// balance or supply, a positive health factor under debt, indices at least
/// RAY, supply rate not above a positive borrow rate.
pub fn check_liquidation_invariants(
    borrower_a_balance: i128,
    borrower_debt_balance: i128,
    liquidator_a_balance: i128,
    borrower_data: Option<UserAccountData>,
    reserve: &ReserveState,
    atoken_supply: i128,
    debt_supply: i128,
) -> (ok: bool)
    ensures
        ok == {
            &&& borrower_a_balance >= 0
            &&& borrower_debt_balance >= 0
            &&& liquidator_a_balance >= 0
            &&& borrower_data matches Some(d) ==> (d.total_debt_base > 0 ==> d.health_factor > 0)
            &&& reserve.liquidity_index >= RAY
            &&& reserve.variable_borrow_index >= RAY
            &&& atoken_supply >= 0
            &&& debt_supply >= 0
            &&& reserve.current_variable_borrow_rate > 0 ==> reserve.current_liquidity_rate
                <= reserve.current_variable_borrow_rate
        },
{
    let mut ok = borrower_a_balance >= 0 && borrower_debt_balance >= 0 && liquidator_a_balance
        >= 0;
    if let Some(d) = borrower_data {
        if d.total_debt_base > 0 {
            ok = ok && d.health_factor > 0;
        }
    }
    ok = ok && reserve.liquidity_index >= RAY;
    ok = ok && reserve.variable_borrow_index >= RAY;
    ok = ok && atoken_supply >= 0;
    ok = ok && debt_supply >= 0;
    if reserve.current_variable_borrow_rate > 0 {
        ok = ok && reserve.current_liquidity_rate <= reserve.current_variable_borrow_rate;
    }
    ok
}

} // verus!
