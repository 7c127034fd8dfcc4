//! What a fuzz run keeps besides the contracts: each asset's initial total
//! of underlying, the rounding error accumulated per asset, and the number of
//! operations executed.
use vstd::prelude::*;
use crate::common::constants::{MAX_ROUNDING_PER_OP, ROUNDING_TRACK_MULTIPLIER};
use crate::common::snapshot::ProtocolSnapshot;

verus! {

/// Sum of the first `k` balances, each taken as unsigned.
pub open spec fn balance_sum(v: Seq<i128>, k: int) -> int
    decreases k,
{
    if k <= 0 {
        0
    } else {
        balance_sum(v, k - 1) + (v[k - 1] as u128)
    }
}

/// `|x|`, saturating at `i128::MAX`: the magnitude a rounding error adds.
pub open spec fn magnitude(x: i128) -> int {
    if x < 0 {
        -x
    } else {
        x as int
    }
}

/// `x + y` for i128, saturating at the type's bounds.
pub open spec fn sat_add_i128(x: int, y: int) -> int {
    if x + y > i128::MAX {
        i128::MAX as int
    } else if x + y < i128::MIN {
        i128::MIN as int
    } else {
        x + y
    }
}

/// The largest per-operation change of an asset's supply plus debt that is
/// still counted as rounding.
pub open spec fn rounding_window() -> int {
    MAX_ROUNDING_PER_OP * ROUNDING_TRACK_MULTIPLIER
}

/// The change of asset `i`'s aToken supply plus debt between two snapshots.
pub open spec fn supply_debt_drift(b: ProtocolSnapshot, a: ProtocolSnapshot, i: int) -> int {
    let before_total = b.total_supply@[i] + b.total_debt@[i];
    let after_total = a.total_supply@[i] + a.total_debt@[i];
    if after_total - before_total < 0 {
        before_total - after_total
    } else {
        after_total - before_total
    }
}

/// Whether the drift computation of asset `i` fits i128.
pub open spec fn drift_fits(b: ProtocolSnapshot, a: ProtocolSnapshot, i: int) -> bool {
    &&& i128::MIN <= b.total_supply@[i] + b.total_debt@[i] <= i128::MAX
    &&& i128::MIN <= a.total_supply@[i] + a.total_debt@[i] <= i128::MAX
    &&& supply_debt_drift(b, a, i) <= i128::MAX
}

/// The run's bookkeeping.
#[derive(Clone, Debug)]
pub struct RunLedger {
    /// Initial total underlying held by the users, per asset
    pub initial_total_underlying: Vec<u128>,
    /// Accumulated rounding error, per asset
    pub cumulative_rounding_error: Vec<i128>,
    /// Operations executed so far
    pub operation_count: u64,
}

impl RunLedger {
    /// Start a run: each asset's initial total is the sum of the users'
    /// balances of it (`balances[i]` lists the users' balances of asset `i`);
    /// no rounding error, no operations yet.
    pub fn new(balances: &Vec<Vec<i128>>) -> (l: Self)
        requires
            forall|i: int|
                0 <= i < balances@.len() ==> balance_sum(
                    (#[trigger] balances@[i])@,
                    balances@[i]@.len() as int,
                ) <= u128::MAX,
        ensures
            l.initial_total_underlying@.len() == balances@.len(),
            forall|i: int|
                0 <= i < balances@.len() ==> #[trigger] l.initial_total_underlying@[i] == balance_sum(
                    balances@[i]@,
                    balances@[i]@.len() as int,
                ),
            l.cumulative_rounding_error@ == Seq::new(balances@.len(), |i: int| 0i128),
            l.operation_count == 0,
    {
        let mut initial_total_underlying: Vec<u128> = Vec::new();
        let mut cumulative_rounding_error: Vec<i128> = Vec::new();
        let mut i: usize = 0;
        while i < balances.len()
            invariant
                i <= balances@.len(),
                forall|k: int|
                    0 <= k < balances@.len() ==> balance_sum(
                        (#[trigger] balances@[k])@,
                        balances@[k]@.len() as int,
                    ) <= u128::MAX,
                initial_total_underlying@.len() == i,
                forall|k: int|
                    0 <= k < i ==> #[trigger] initial_total_underlying@[k] == balance_sum(
                        balances@[k]@,
                        balances@[k]@.len() as int,
                    ),
                cumulative_rounding_error@ == Seq::new(i as nat, |k: int| 0i128),
            decreases balances@.len() - i,
        {
            let row = &balances[i];
            assert(balance_sum(balances@[i as int]@, balances@[i as int]@.len() as int) <= u128::MAX);
            let mut total: u128 = 0;
            let mut j: usize = 0;
            while j < row.len()
                invariant
                    j <= row@.len(),
                    balance_sum(row@, row@.len() as int) <= u128::MAX,
                    total == balance_sum(row@, j as int),
                decreases row@.len() - j,
            {
                proof {
                    lemma_balance_sum_mono(row@, j + 1, row@.len() as int);
                }
                total = total + row[j] as u128;
                j = j + 1;
            }
            initial_total_underlying.push(total);
            cumulative_rounding_error.push(0);
            assert(cumulative_rounding_error@ =~= Seq::new((i + 1) as nat, |k: int| 0i128));
            i = i + 1;
        }
        RunLedger { initial_total_underlying, cumulative_rounding_error, operation_count: 0 }
    }

    /// Add the magnitude of `error` to asset `asset_idx`'s accumulated
    /// rounding error (saturating); an index past the assets is ignored.
    pub fn track_rounding_error(&mut self, asset_idx: usize, error: i128)
        requires
            error != i128::MIN,
        ensures
            final(self).initial_total_underlying@ == old(self).initial_total_underlying@,
            final(self).operation_count == old(self).operation_count,
            final(self).cumulative_rounding_error@ == if asset_idx < old(
                self,
            ).cumulative_rounding_error@.len() {
                old(self).cumulative_rounding_error@.update(
                    asset_idx as int,
                    sat_add_i128(
                        old(self).cumulative_rounding_error@[asset_idx as int] as int,
                        magnitude(error),
                    ) as i128,
                )
            } else {
                old(self).cumulative_rounding_error@
            },
    {
        if asset_idx < self.cumulative_rounding_error.len() {
            let current = self.cumulative_rounding_error[asset_idx];
            let amount = if error < 0 {
                -error
            } else {
                error
            };
            let updated = match current.checked_add(amount) {
                Some(s) => s,
                None => if amount > 0 {
                    i128::MAX
                } else {
                    i128::MIN
                },
            };
            self.cumulative_rounding_error.set(asset_idx, updated);
        }
    }

    /// Count one more executed operation.
    pub fn increment_operation_count(&mut self)
        requires
            old(self).operation_count < u64::MAX,
        ensures
            final(self).operation_count == old(self).operation_count + 1,
            final(self).initial_total_underlying@ == old(self).initial_total_underlying@,
            final(self).cumulative_rounding_error@ == old(self).cumulative_rounding_error@,
    {
        self.operation_count = self.operation_count + 1;
    }

    /// After an operation, count as rounding error every asset whose aToken
    /// supply plus debt moved by more than zero and less than the rounding
    /// window.
    pub fn record_step_rounding(&mut self, before: &ProtocolSnapshot, after: &ProtocolSnapshot)
        requires
            before.shaped(),
            after.shaped(),
            after.assets() == before.assets(),
            old(self).cumulative_rounding_error@.len() == before.assets(),
            forall|i: int| 0 <= i < before.assets() ==> #[trigger] drift_fits(*before, *after, i),
        ensures
            final(self).initial_total_underlying@ == old(self).initial_total_underlying@,
            final(self).operation_count == old(self).operation_count,
            final(self).cumulative_rounding_error@.len() == old(self).cumulative_rounding_error@.len(),
            forall|i: int|
                0 <= i < before.assets() ==> #[trigger] final(self).cumulative_rounding_error@[i] == if 0
                    < supply_debt_drift(*before, *after, i) < rounding_window() {
                    sat_add_i128(
                        old(self).cumulative_rounding_error@[i] as int,
                        supply_debt_drift(*before, *after, i),
                    )
                } else {
                    old(self).cumulative_rounding_error@[i] as int
                },
    {
        let n = before.total_supply.len();
        let ghost start = self.cumulative_rounding_error@;
        let mut i: usize = 0;
        while i < n
            invariant
                before.shaped(),
                after.shaped(),
                after.assets() == before.assets(),
                n == before.assets(),
                start.len() == n,
                self.cumulative_rounding_error@.len() == n,
                self.initial_total_underlying@ == old(self).initial_total_underlying@,
                self.operation_count == old(self).operation_count,
                start == old(self).cumulative_rounding_error@,
                forall|k: int| 0 <= k < n ==> #[trigger] drift_fits(*before, *after, k),
                i <= n,
                forall|k: int|
                    i <= k < n ==> #[trigger] self.cumulative_rounding_error@[k] == start[k],
                forall|k: int|
                    0 <= k < i ==> #[trigger] self.cumulative_rounding_error@[k] == if 0
                        < supply_debt_drift(*before, *after, k) < rounding_window() {
                        sat_add_i128(start[k] as int, supply_debt_drift(*before, *after, k))
                    } else {
                        start[k] as int
                    },
            decreases n - i,
        {
            assert(drift_fits(*before, *after, i as int));
            let before_total = before.total_supply[i] + before.total_debt[i];
            let after_total = after.total_supply[i] + after.total_debt[i];
            let diff: i128 = if after_total < before_total {
                before_total - after_total
            } else {
                after_total - before_total
            };
            if diff > 0 && diff < MAX_ROUNDING_PER_OP * ROUNDING_TRACK_MULTIPLIER {
                self.track_rounding_error(i, diff);
            }
            i = i + 1;
        }
    }
}

proof fn lemma_balance_sum_mono(v: Seq<i128>, k: int, n: int)
    requires
        0 <= k <= n <= v.len(),
    ensures
        0 <= balance_sum(v, k) <= balance_sum(v, n),
    decreases n,
{
    if k < n {
        lemma_balance_sum_mono(v, k, n - 1);
    } else if n > 0 {
        lemma_balance_sum_mono(v, k - 1, n - 1);
    }
}

/// The index of the user or asset an operation's index names: the index
/// modulo their number.
pub fn pick_index(idx: u8, len: usize) -> (r: usize)
    requires
        len > 0,
    ensures
        r == (idx as int) % (len as int),
        r < len,
{
    (idx as usize) % len
}

/// The flash-loan amount the premium check assumes: the percentage of the
/// available liquidity (taken as unsigned), at least 1.
pub fn checked_flash_loan_amount(available: i128, amount_percent: u8) -> (a: u128)
    requires
        (available as u128) * amount_percent <= u128::MAX,
    ensures
        a == (if (available as u128) * amount_percent / 100 >= 1 {
            (available as u128) * amount_percent / 100
        } else {
            1
        }),
{
    let amount = (available as u128) * (amount_percent as u128) / 100;
    if amount >= 1 {
        amount
    } else {
        1
    }
}

/// Whether the economic-exploit checks run after this many operations:
/// every fifth.
pub fn value_checks_due(operation_count: u64) -> (r: bool)
    ensures
        r == (operation_count % 5 == 0),
{
    operation_count % 5 == 0
}

} // verus!
