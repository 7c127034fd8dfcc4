//! Multi-asset target: reserve configurations, reserve isolation and
//! cross-asset invariants over three reserves.
use vstd::prelude::*;
use crate::targets::views::UserAccountData;

pub use crate::targets::views::{MockReflector, PriceData};

verus! {

/// RAY constant (1e9)
pub const RAY: u128 = 1_000_000_000;
/// WAD constant for health factor (1e18)
pub const WAD: u128 = 1_000_000_000_000_000_000;
/// Base price with 14 decimals (1 USD)
pub const BASE_PRICE: u128 = 1_000_000_000_000_000;
/// Minimum amount for operations (0.1 tokens with 7 decimals)
pub const MIN_AMOUNT: u128 = 1_000_000;
/// Maximum amount for operations (10M tokens)
pub const MAX_AMOUNT: u128 = 100_000_000_000_000;

/// Which asset to operate on.
#[derive(Clone, Copy, Debug, PartialEq, Eq, Structural)]
pub enum AssetChoice {
    AssetA,
    AssetB,
    AssetC,
}

/// Which user performs the operation.
#[derive(Clone, Copy, Debug, PartialEq, Eq, Structural)]
pub enum User {
    User1,
    User2,
}

/// Operations in multi-asset context.
#[derive(Clone, Copy, Debug, PartialEq, Eq, Structural)]
pub enum MultiAssetOperation {
    /// Supply to a specific asset
    Supply { user: User, asset: AssetChoice, amount: u64 },
    /// Borrow from a specific asset (uses all collateral)
    Borrow { user: User, asset: AssetChoice, amount: u64 },
    /// Repay debt on a specific asset
    Repay { user: User, asset: AssetChoice, amount: u64 },
    /// Withdraw from a specific asset
    Withdraw { user: User, asset: AssetChoice, amount: u64 },
    /// Set collateral enabled/disabled for a specific asset
    SetCollateralEnabled { user: User, asset: AssetChoice, enabled: bool },
    /// Cross-asset liquidation
    Liquidate {
        liquidator: User,
        borrower: User,
        collateral_asset: AssetChoice,
        debt_asset: AssetChoice,
        amount: u64,
    },
    /// Change price of an asset (in basis points relative to 1 USD)
    SetPrice { asset: AssetChoice, price_bps: u16 },
    /// Advance time to accrue interest
    AdvanceTime { seconds: u32 },
}

/// Fuzz input of the multi-asset target.
#[derive(Clone, Copy, Debug)]
pub struct MultiAssetInput {
    /// Initial prices for assets (in basis points, 10000 = $1)
    pub initial_price_a_bps: u16,
    pub initial_price_b_bps: u16,
    pub initial_price_c_bps: u16,
    /// Initial supply amounts for liquidity
    pub liquidity_a: u64,
    pub liquidity_b: u64,
    pub liquidity_c: u64,
    /// Sequence of operations
    pub operations: [Option<MultiAssetOperation>; 12],
}

/// Risk parameters of one reserve.
#[derive(Clone, Copy, Debug, PartialEq, Eq, Structural)]
pub struct ReserveConfig {
    pub ltv: u32,
    pub liquidation_threshold: u32,
    pub liquidation_bonus: u32,
    pub decimals: u32,
}

impl ReserveConfig {
    /// Conservative reserve (lower LTV, safer): 50% LTV, 65% threshold,
    /// 10% bonus.
    pub fn conservative() -> (c: Self)
        ensures
            c == (ReserveConfig {
                ltv: 5000,
                liquidation_threshold: 6500,
                liquidation_bonus: 1000,
                decimals: 7,
            }),
    {
        ReserveConfig { ltv: 5000, liquidation_threshold: 6500, liquidation_bonus: 1000, decimals: 7 }
    }

    /// Standard reserve: 75% LTV, 80% threshold, 5% bonus.
    pub fn standard() -> (c: Self)
        ensures
            c == (ReserveConfig {
                ltv: 7500,
                liquidation_threshold: 8000,
                liquidation_bonus: 500,
                decimals: 7,
            }),
    {
        ReserveConfig { ltv: 7500, liquidation_threshold: 8000, liquidation_bonus: 500, decimals: 7 }
    }

    /// Aggressive reserve (higher LTV, riskier): 85% LTV, 90% threshold,
    /// 3% bonus.
    pub fn aggressive() -> (c: Self)
        ensures
            c == (ReserveConfig {
                ltv: 8500,
                liquidation_threshold: 9000,
                liquidation_bonus: 300,
                decimals: 7,
            }),
    {
        ReserveConfig { ltv: 8500, liquidation_threshold: 9000, liquidation_bonus: 300, decimals: 7 }
    }
}

/// Snapshot of a single reserve's state.
#[derive(Clone, Copy, Debug)]
pub struct ReserveSnapshot {
    pub liquidity_index: u128,
    pub variable_borrow_index: u128,
    pub current_liquidity_rate: u128,
    pub current_variable_borrow_rate: u128,
    pub atoken_supply: i128,
    pub debt_supply: i128,
    pub underlying_balance: i128,
}

/// Snapshot of all three reserves.
#[derive(Clone, Copy, Debug)]
pub struct MultiReserveSnapshot {
    pub reserve_a: ReserveSnapshot,
    pub reserve_b: ReserveSnapshot,
    pub reserve_c: ReserveSnapshot,
}

impl MultiReserveSnapshot {
    /// The snapshot of one reserve.
    pub open spec fn of(self, choice: AssetChoice) -> ReserveSnapshot {
        match choice {
            AssetChoice::AssetA => self.reserve_a,
            AssetChoice::AssetB => self.reserve_b,
            AssetChoice::AssetC => self.reserve_c,
        }
    }
}

/// Neither index of a reserve decreased.
pub open spec fn indices_kept(b: ReserveSnapshot, a: ReserveSnapshot) -> bool {
    a.liquidity_index >= b.liquidity_index && a.variable_borrow_index >= b.variable_borrow_index
}

/// Reserve isolation: an operation on one reserve leaves the indices of the
/// other two reserves non-decreasing.
pub fn check_reserve_isolation(
    before: &MultiReserveSnapshot,
    after: &MultiReserveSnapshot,
    affected_asset: AssetChoice,
) -> (ok: bool)
    ensures
        ok == forall|c: AssetChoice| c != affected_asset ==> indices_kept(before.of(c), after.of(c)),
        *after == *before ==> ok,
{
    let (b1, a1, b2, a2) = match affected_asset {
        AssetChoice::AssetA => (&before.reserve_b, &after.reserve_b, &before.reserve_c, &after.reserve_c),
        AssetChoice::AssetB => (&before.reserve_a, &after.reserve_a, &before.reserve_c, &after.reserve_c),
        AssetChoice::AssetC => (&before.reserve_a, &after.reserve_a, &before.reserve_b, &after.reserve_b),
    };
    let ok = a1.liquidity_index >= b1.liquidity_index && a1.variable_borrow_index
        >= b1.variable_borrow_index && a2.liquidity_index >= b2.liquidity_index
        && a2.variable_borrow_index >= b2.variable_borrow_index;
    proof {
        if !ok {
            let c = match affected_asset {
                AssetChoice::AssetA => if !indices_kept(before.reserve_b, after.reserve_b) {
                    AssetChoice::AssetB
                } else {
                    AssetChoice::AssetC
                },
                AssetChoice::AssetB => if !indices_kept(before.reserve_a, after.reserve_a) {
                    AssetChoice::AssetA
                } else {
                    AssetChoice::AssetC
                },
                AssetChoice::AssetC => if !indices_kept(before.reserve_a, after.reserve_a) {
                    AssetChoice::AssetA
                } else {
                    AssetChoice::AssetB
                },
            };
            assert(c != affected_asset && !indices_kept(before.of(c), after.of(c)));
        }
    }
    ok
}

/// One reserve is sound: indices at least RAY, supply rate not above a
/// positive borrow rate, non-negative supplies.
pub open spec fn reserve_sound(r: ReserveSnapshot) -> bool {
    &&& r.liquidity_index >= RAY
    &&& r.variable_borrow_index >= RAY
    &&& r.current_variable_borrow_rate > 0 ==> r.current_liquidity_rate
        <= r.current_variable_borrow_rate
    &&& r.atoken_supply >= 0
    &&& r.debt_supply >= 0
}

/// One user's account data is sound: under debt the health factor is
/// positive, and finite when there is also collateral.
pub open spec fn account_sound(d: Option<UserAccountData>) -> bool {
    d matches Some(d) ==> (d.total_debt_base > 0 ==> d.health_factor > 0 && (
    d.total_collateral_base > 0 ==> d.health_factor < u128::MAX))
}

fn check_reserve(r: &ReserveSnapshot) -> (ok: bool)
    ensures
        ok == reserve_sound(*r),
{
    let mut ok = r.liquidity_index >= RAY && r.variable_borrow_index >= RAY;
    if r.current_variable_borrow_rate > 0 {
        ok = ok && r.current_liquidity_rate <= r.current_variable_borrow_rate;
    }
    ok && r.atoken_supply >= 0 && r.debt_supply >= 0
}

fn check_account(d: Option<UserAccountData>) -> (ok: bool)
    ensures
        ok == account_sound(d),
{
    match d {
        Some(d) => {
            if d.total_debt_base > 0 {
                let mut ok = d.health_factor > 0;
                if d.total_collateral_base > 0 {
                    ok = ok && d.health_factor < u128::MAX;
                }
                ok
            } else {
                true
            }
        },
        None => true,
    }
}

/// Cross-asset invariants: all three reserves sound and both users' account
/// data sound.
pub fn check_multi_asset_invariants(
    snapshot: &MultiReserveSnapshot,
    user1_data: Option<UserAccountData>,
    user2_data: Option<UserAccountData>,
) -> (ok: bool)
    ensures
        ok == (reserve_sound(snapshot.reserve_a) && reserve_sound(snapshot.reserve_b)
            && reserve_sound(snapshot.reserve_c) && account_sound(user1_data) && account_sound(
            user2_data,
        )),
{
    check_reserve(&snapshot.reserve_a) && check_reserve(&snapshot.reserve_b) && check_reserve(
        &snapshot.reserve_c,
    ) && check_account(user1_data) && check_account(user2_data)
}

/// After a successful cross-asset liquidation the liquidity index of both
/// the collateral and the debt reserve did not decrease.
pub fn check_liquidation_invariants(
    before_collateral_snapshot: &ReserveSnapshot,
    after_collateral_snapshot: &ReserveSnapshot,
    before_debt_snapshot: &ReserveSnapshot,
    after_debt_snapshot: &ReserveSnapshot,
    liquidation_succeeded: bool,
) -> (ok: bool)
    ensures
        ok == (liquidation_succeeded ==> after_collateral_snapshot.liquidity_index
            >= before_collateral_snapshot.liquidity_index && after_debt_snapshot.liquidity_index
            >= before_debt_snapshot.liquidity_index),
        !liquidation_succeeded ==> ok,
        liquidation_succeeded && (after_collateral_snapshot.liquidity_index
            < before_collateral_snapshot.liquidity_index || after_debt_snapshot.liquidity_index
            < before_debt_snapshot.liquidity_index) ==> !ok,
{
    if liquidation_succeeded {
        after_collateral_snapshot.liquidity_index >= before_collateral_snapshot.liquidity_index
            && after_debt_snapshot.liquidity_index >= before_debt_snapshot.liquidity_index
    } else {
        true
    }
}

/// An initial price: `bps` (clamped to 1000..=50000) basis points of one USD.
pub fn initial_price(bps: u16) -> (p: u128)
    ensures
        p == BASE_PRICE * (if bps < 1000 {
            1000
        } else if bps > 50000 {
            50000
        } else {
            bps as int
        }) / 10000,
{
    let clamped: u128 = if bps < 1000 {
        1000
    } else if bps > 50000 {
        50000
    } else {
        bps as u128
    };
    BASE_PRICE * clamped / 10000
}

} // verus!
