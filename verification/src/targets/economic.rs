//! Economic-invariants target: utilization, interest rates, indices, treasury
//! accrual and value conservation of one reserve.
use vstd::prelude::*;

pub use crate::targets::views::{MockReflector, PriceData};

verus! {

/// RAY constant (1e9 for rate precision)
pub const RAY: u128 = 1_000_000_000;
/// Basis points denominator
pub const BPS: u128 = 10_000;
/// Seconds per year for rate calculations
pub const SECONDS_PER_YEAR: u128 = 31_536_000;
/// Minimum amount
pub const MIN_AMOUNT: u128 = 1_000_000;
/// Maximum amount
pub const MAX_AMOUNT: u128 = 100_000_000_000_000;

#[derive(Clone, Copy, Debug, PartialEq, Eq, Structural)]
pub enum User {
    User1,
    User2,
    User3,
}

/// Operations that affect economic state.
#[derive(Clone, Copy, Debug, PartialEq, Eq, Structural)]
pub enum EconomicOperation {
    /// Supply assets (increases liquidity)
    Supply { user: User, amount: u64 },
    /// Borrow assets (increases utilization)
    Borrow { user: User, amount: u64 },
    /// Repay debt (decreases utilization)
    Repay { user: User, amount: u64 },
    /// Withdraw assets (decreases liquidity)
    Withdraw { user: User, amount: u64 },
    /// Advance time to accrue interest
    AdvanceTime { seconds: u32 },
    /// Large supply to test low utilization
    LargeSupply { user: User },
    /// Borrow to specific utilization target (percent 0-100)
    BorrowToUtilization { user: User, target_percent: u8 },
    /// Repay all debt
    RepayAll { user: User },
    /// Withdraw all
    WithdrawAll { user: User },
}

/// Fuzz input of the economic target.
#[derive(Clone, Copy, Debug)]
pub struct EconomicInput {
    /// Initial liquidity amount
    pub initial_liquidity: u64,
    /// Interest rate strategy parameters
    pub base_rate_bps: u16,
    pub slope1_bps: u16,
    pub slope2_bps: u16,
    pub optimal_utilization_bps: u16,
    /// Reserve factor (basis points, 0-10000)
    pub reserve_factor_bps: u16,
    /// Sequence of operations
    pub operations: [Option<EconomicOperation>; 16],
}

/// Snapshot of the economic state of the reserve.
#[derive(Clone, Copy, Debug)]
pub struct EconomicSnapshot {
    pub liquidity_index: u128,
    pub variable_borrow_index: u128,
    pub current_liquidity_rate: u128,
    pub current_variable_borrow_rate: u128,
    pub total_atoken_supply: i128,
    pub total_debt_supply: i128,
    pub underlying_balance: i128,
    pub treasury_balance: i128,
    pub timestamp: u64,
}

/// `max(x, 0)`.
pub open spec fn nonneg(x: i128) -> int {
    if x < 0 {
        0
    } else {
        x as int
    }
}

impl EconomicSnapshot {
    /// Utilization in RAY: debt over (available liquidity + debt); zero
    /// without aToken supply or without liquidity.
    pub open spec fn utilization(self) -> int {
        if self.total_atoken_supply <= 0 {
            0
        } else {
            let debt = nonneg(self.total_debt_supply);
            let total_liquidity = nonneg(self.underlying_balance) + debt;
            if total_liquidity == 0 {
                0
            } else {
                debt * RAY / total_liquidity
            }
        }
    }

    /// Utilization rate (in RAY).
    pub fn utilization_rate(&self) -> (r: u128)
        requires
            self.total_atoken_supply > 0 ==> nonneg(self.total_debt_supply) * RAY <= u128::MAX,
        ensures
            r == self.utilization(),
    {
        if self.total_atoken_supply <= 0 {
            return 0;
        }
        let total_debt: u128 = if self.total_debt_supply < 0 {
            0
        } else {
            self.total_debt_supply as u128
        };
        let available: u128 = if self.underlying_balance < 0 {
            0
        } else {
            self.underlying_balance as u128
        };
        let total_liquidity = available + total_debt;
        if total_liquidity == 0 {
            return 0;
        }
        (total_debt * RAY) / total_liquidity
    }
}

/// Utilization never exceeds 100% (one RAY).
pub proof fn lemma_utilization_at_most_one_ray(s: EconomicSnapshot)
    ensures
        0 <= s.utilization() <= RAY,
{
    if s.total_atoken_supply > 0 {
        let debt = nonneg(s.total_debt_supply);
        let total = nonneg(s.underlying_balance) + debt;
        if total != 0 {
            assert(debt * RAY <= total * RAY) by (nonlinear_arith)
                requires
                    0 <= debt <= total,
            ;
            assert(debt * RAY / total <= RAY) by (nonlinear_arith)
                requires
                    debt * RAY <= total * RAY,
                    total > 0,
                    debt >= 0,
            ;
            assert(debt * RAY / total >= 0) by (nonlinear_arith)
                requires
                    total > 0,
                    debt >= 0,
            ;
        }
    }
}

/// Rate samples `(utilization, supply_rate, borrow_rate)` in recording order.
#[derive(Clone, Debug)]
pub struct RateHistory {
    pub entries: Vec<(u128, u128, u128)>,
}

/// Value flows through the reserve, for conservation reports.
#[derive(Clone, Copy, Debug)]
pub struct ValueFlows {
    pub total_supplied: u128,
    pub total_withdrawn: u128,
    pub total_borrowed: u128,
    pub total_repaid: u128,
    pub interest_accrued_estimate: u128,
}

impl RateHistory {
    /// An empty history.
    pub fn new() -> (h: Self)
        ensures
            h.entries@ == Seq::<(u128, u128, u128)>::empty(),
    {
        RateHistory { entries: Vec::new() }
    }

    /// Appends one sample.
    pub fn record(&mut self, utilization: u128, supply_rate: u128, borrow_rate: u128)
        ensures
            final(self).entries@ == old(self).entries@.push((utilization, supply_rate, borrow_rate)),
    {
        self.entries.push((utilization, supply_rate, borrow_rate));
    }
}

/// Utilization stays within 0-100%.
pub fn check_utilization_invariants(snapshot: &EconomicSnapshot) -> (ok: bool)
    requires
        snapshot.total_atoken_supply > 0 ==> nonneg(snapshot.total_debt_supply) * RAY
            <= u128::MAX,
    ensures
        ok == (snapshot.utilization() <= RAY),
        ok,
{
    let utilization = snapshot.utilization_rate();
    proof {
        lemma_utilization_at_most_one_ray(*snapshot);
    }
    utilization <= RAY
}

/// Supply rate does not exceed borrow rate, and the borrow rate is at most
/// 100 RAY.
pub fn check_rate_invariants(snapshot: &EconomicSnapshot) -> (ok: bool)
    ensures
        ok == (snapshot.current_liquidity_rate <= snapshot.current_variable_borrow_rate
            && snapshot.current_variable_borrow_rate <= RAY * 100),
        snapshot.current_liquidity_rate > snapshot.current_variable_borrow_rate ==> !ok,
        snapshot.current_variable_borrow_rate > RAY * 100 ==> !ok,
{
    let max_reasonable_rate = RAY * 100;
    snapshot.current_liquidity_rate <= snapshot.current_variable_borrow_rate
        && snapshot.current_variable_borrow_rate <= max_reasonable_rate
}

/// Indices never decrease and stay at least RAY.
pub fn check_index_invariants(before: &EconomicSnapshot, after: &EconomicSnapshot) -> (ok: bool)
    ensures
        ok == (after.liquidity_index >= before.liquidity_index && after.variable_borrow_index
            >= before.variable_borrow_index && after.liquidity_index >= RAY
            && after.variable_borrow_index >= RAY),
        after.liquidity_index < before.liquidity_index ==> !ok,
        after.variable_borrow_index < before.variable_borrow_index ==> !ok,
        after.liquidity_index == before.liquidity_index && after.variable_borrow_index
            == before.variable_borrow_index && before.liquidity_index >= RAY
            && before.variable_borrow_index >= RAY ==> ok,
{
    after.liquidity_index >= before.liquidity_index && after.variable_borrow_index
        >= before.variable_borrow_index && after.liquidity_index >= RAY
        && after.variable_borrow_index >= RAY
}

/// The treasury never loses funds, and interest goes somewhere (treasury or
/// an index) when more than a minute passed with debt at a positive rate.
pub fn check_treasury_invariants(
    before: &EconomicSnapshot,
    after: &EconomicSnapshot,
    time_elapsed: u64,
) -> (ok: bool)
    ensures
        ok == (after.treasury_balance >= before.treasury_balance && (time_elapsed > 60
            && before.total_debt_supply > 0 && before.current_variable_borrow_rate > 0 ==> (
        after.treasury_balance > before.treasury_balance || after.liquidity_index
            > before.liquidity_index || after.variable_borrow_index > before.variable_borrow_index))),
        after.treasury_balance < before.treasury_balance ==> !ok,
        after.treasury_balance > before.treasury_balance ==> ok,
{
    let mut ok = after.treasury_balance >= before.treasury_balance;
    if time_elapsed > 0 && before.total_debt_supply > 0 && before.current_variable_borrow_rate > 0 {
        let treasury_increased = after.treasury_balance > before.treasury_balance;
        let index_increased = after.liquidity_index > before.liquidity_index
            || after.variable_borrow_index > before.variable_borrow_index;
        if time_elapsed > 60 {
            ok = ok && (treasury_increased || index_increased);
        }
    }
    ok
}

/// Assets (underlying plus debt) stay within a tenth and ten times the aToken
/// supply.
pub fn check_value_conservation(snapshot: &EconomicSnapshot, _value_flows: &ValueFlows) -> (ok: bool)
    requires
        (nonneg(snapshot.underlying_balance) + nonneg(snapshot.total_debt_supply)) * RAY
            <= u128::MAX,
    ensures
        ok == ({
            let atoken = nonneg(snapshot.total_atoken_supply);
            let total_assets = nonneg(snapshot.underlying_balance) + nonneg(
                snapshot.total_debt_supply,
            );
            atoken > 0 && total_assets > 0 ==> RAY / 10 <= total_assets * RAY / atoken <= RAY
                * 10
        }),
{
    let underlying: u128 = if snapshot.underlying_balance < 0 {
        0
    } else {
        snapshot.underlying_balance as u128
    };
    let debt: u128 = if snapshot.total_debt_supply < 0 {
        0
    } else {
        snapshot.total_debt_supply as u128
    };
    let atoken: u128 = if snapshot.total_atoken_supply < 0 {
        0
    } else {
        snapshot.total_atoken_supply as u128
    };
    if atoken > 0 {
        let total_assets = underlying + debt;
        if total_assets > 0 && atoken > 0 {
            let ratio = (total_assets * RAY) / atoken;
            return ratio >= RAY / 10 && ratio <= RAY * 10;
        }
    }
    true
}

/// Position `i` holds the last sample with its utilization.
pub open spec fn last_of_key(e: Seq<(u128, u128, u128)>, i: int) -> bool {
    forall|k: int| i < k < e.len() ==> #[trigger] e[k].0 != e[i].0
}

/// Position `j` holds the first sample with its utilization.
pub open spec fn first_of_key(e: Seq<(u128, u128, u128)>, j: int) -> bool {
    forall|k: int| 0 <= k < j ==> #[trigger] e[k].0 != e[j].0
}

/// The utilization at `j` is the next larger one after the utilization at `i`.
pub open spec fn next_key(e: Seq<(u128, u128, u128)>, i: int, j: int) -> bool {
    &&& e[j].0 > e[i].0
    &&& forall|k: int| 0 <= k < e.len() ==> !(e[i].0 < #[trigger] e[k].0 < e[j].0)
}

/// `i` and `j` are neighbours once the samples are stably sorted by
/// utilization and belong to different utilizations: `i` closes its group and
/// `j` opens the next one.
pub open spec fn sorted_neighbours(e: Seq<(u128, u128, u128)>, i: int, j: int) -> bool {
    &&& 0 <= i < e.len()
    &&& 0 <= j < e.len()
    &&& last_of_key(e, i)
    &&& first_of_key(e, j)
    &&& next_key(e, i, j)
}

/// Borrow rates do not fall (by more than 0.1%) when utilization rises by
/// more than 1% between neighbouring samples in utilization order.
pub open spec fn rates_monotone(e: Seq<(u128, u128, u128)>) -> bool {
    forall|i: int, j: int|
        #![trigger sorted_neighbours(e, i, j)]
        sorted_neighbours(e, i, j) && e[j].0 > e[i].0 + RAY / 100 ==> e[j].2 + RAY / 1000
            >= e[i].2
}

/// The comparisons that the monotonicity check performs do not overflow:
/// every sample but the last in utilization order is compared with one more
/// percent, and the borrow rate of a neighbour that rose by more than that is
/// compared with a tenth of a percent added.
pub open spec fn monotonicity_check_fits(e: Seq<(u128, u128, u128)>) -> bool {
    &&& forall|i: int, k: int|
        #![trigger e[i], e[k]]
        0 <= i < e.len() && 0 <= k < e.len() && (e[k].0 > e[i].0 || (k > i && e[k].0 == e[i].0))
            ==> e[i].0 + RAY / 100 <= u128::MAX
    &&& forall|i: int, j: int|
        #![trigger sorted_neighbours(e, i, j)]
        sorted_neighbours(e, i, j) && e[j].0 > e[i].0 + RAY / 100 ==> e[j].2 + RAY / 1000
            <= u128::MAX
}

impl RateHistory {
    /// Whether borrow rates are monotonic in utilization: sorting the samples
    /// by utilization (keeping recording order among equal ones), no borrow
    /// rate falls by more than 0.1% where utilization rises by more than 1%.
    pub fn check_monotonicity(&self) -> (ok: bool)
        requires
            monotonicity_check_fits(self.entries@),
        ensures
            ok == rates_monotone(self.entries@),
    {
        let n = self.entries.len();
        let ghost e = self.entries@;
        if n < 2 {
            proof {
                assert forall|i: int, j: int| sorted_neighbours(e, i, j) implies false by {
                    if n == 1 {
                        assert(i == 0 && j == 0);
                    }
                }
            }
            return true;
        }
        let mut i: usize = 0;
        while i < n
            invariant
                n == e.len(),
                e == self.entries@,
                monotonicity_check_fits(e),
                i <= n,
                forall|a: int, b: int|
                    #![trigger sorted_neighbours(e, a, b)]
                    0 <= a < i && sorted_neighbours(e, a, b) && e[b].0 > e[a].0 + RAY / 100
                        ==> e[b].2 + RAY / 1000 >= e[a].2,
            decreases n - i,
        {
            let ui = self.entries[i].0;
            let mut last = true;
            let mut k: usize = i + 1;
            while k < n
                invariant
                    n == e.len(),
                    e == self.entries@,
                    i < n,
                    i + 1 <= k <= n,
                    ui == e[i as int].0,
                    last == forall|m: int| i < m < k ==> #[trigger] e[m].0 != ui,
                decreases n - k,
            {
                if self.entries[k].0 == ui {
                    last = false;
                }
                k = k + 1;
            }
            if last {
                let mut found = false;
                let mut j: usize = 0;
                let mut k2: usize = 0;
                while k2 < n
                    invariant
                        n == e.len(),
                        e == self.entries@,
                        i < n,
                        k2 <= n,
                        j < n,
                        ui == e[i as int].0,
                        found ==> e[j as int].0 > ui && j < k2,
                        found ==> forall|m: int|
                            0 <= m < k2 && #[trigger] e[m].0 > ui ==> e[j as int].0 <= e[m].0 && (
                            e[j as int].0 == e[m].0 ==> j <= m),
                        !found ==> forall|m: int| 0 <= m < k2 ==> #[trigger] e[m].0 <= ui,
                    decreases n - k2,
                {
                    let uk = self.entries[k2].0;
                    if uk > ui && (!found || uk < self.entries[j].0) {
                        found = true;
                        j = k2;
                    }
                    k2 = k2 + 1;
                }
                if found {
                    proof {
                        assert(e[i as int].0 + RAY / 100 <= u128::MAX) by {
                            let _ = e[j as int];
                        }
                        assert(first_of_key(e, j as int));
                        assert(next_key(e, i as int, j as int));
                        assert(sorted_neighbours(e, i as int, j as int));
                    }
                    let uj = self.entries[j].0;
                    if uj > ui + RAY / 100 {
                        if self.entries[j].2 + RAY / 1000 < self.entries[i].2 {
                            return false;
                        }
                    }
                    proof {
                        assert forall|b: int| sorted_neighbours(e, i as int, b) implies b == j by {
                            assert(!(e[i as int].0 < e[j as int].0 < e[b].0));
                            assert(!(e[i as int].0 < e[b].0 < e[j as int].0));
                            if b < j {
                                assert(e[b].0 != e[j as int].0);
                            } else if b > j {
                                assert(e[j as int].0 != e[b].0);
                            }
                        }
                    }
                } else {
                    proof {
                        assert forall|b: int| !sorted_neighbours(e, i as int, b) by {
                            if 0 <= b < n {
                                assert(e[b].0 <= ui);
                            }
                        }
                    }
                }
            } else {
                proof {
                    assert forall|b: int| !sorted_neighbours(e, i as int, b) by {
                        let m = choose|m: int| i < m < n && e[m].0 == ui;
                        assert(e[m].0 == e[i as int].0);
                    }
                }
            }
            i = i + 1;
        }
        true
    }
}

/// Higher utilization goes with a borrow rate that does not fall.
pub fn check_rate_utilization_relationship(rate_history: &RateHistory) -> (ok: bool)
    requires
        monotonicity_check_fits(rate_history.entries@),
    ensures
        ok == rates_monotone(rate_history.entries@),
{
    rate_history.check_monotonicity()
}

} // verus!
