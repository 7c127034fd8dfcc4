//! Conservation and solvency checks of the multi-asset fuzzer: balances sum
//! to totals, underlying tokens are neither created nor destroyed beyond the
//! rounding budget, and collateral value covers debt value.  Token balances
//! are those captured in the snapshot the check runs on.
use vstd::prelude::*;
use crate::common::constants::{tolerance_spec, BASIS_POINTS, MAX_PRICE, RAY, TOKEN_UNIT};
use crate::common::invariants::{any_positive, has_positive};
use crate::common::snapshot::{AccountReading, ProtocolSnapshot, ReserveReading};

verus! {

/// Sum of column `i` over the first `k` rows.
pub open spec fn col_sum(t: Seq<Vec<i128>>, i: int, k: int) -> int
    decreases k,
{
    if k <= 0 {
        0
    } else {
        col_sum(t, i, k - 1) + t[k - 1]@[i]
    }
}

/// Every prefix sum of column `i` fits i128.
pub open spec fn col_fits(t: Seq<Vec<i128>>, i: int) -> bool {
    forall|k: int| 0 <= k <= t.len() ==> i128::MIN <= #[trigger] col_sum(t, i, k) <= i128::MAX
}

/// `|x|`.
pub open spec fn abs(x: int) -> int {
    if x < 0 {
        -x
    } else {
        x
    }
}

/// Whether `|x|` fits i128 (it does unless `x` is `i128::MIN`).
pub open spec fn abs_fits(x: int) -> bool {
    i128::MIN < x <= i128::MAX
}

fn abs_i128(x: i128) -> (r: i128)
    requires
        x != i128::MIN,
    ensures
        r == abs(x as int),
{
    if x < 0 {
        -x
    } else {
        x
    }
}

/// The sum of column `i` of a table.
pub fn column_total(t: &Vec<Vec<i128>>, i: usize) -> (r: i128)
    requires
        forall|j: int| 0 <= j < t@.len() ==> i < (#[trigger] t@[j])@.len(),
        col_fits(t@, i as int),
    ensures
        r == col_sum(t@, i as int, t@.len() as int),
{
    let mut total: i128 = 0;
    let mut j: usize = 0;
    while j < t.len()
        invariant
            j <= t@.len(),
            forall|k: int| 0 <= k < t@.len() ==> i < (#[trigger] t@[k])@.len(),
            col_fits(t@, i as int),
            total == col_sum(t@, i as int, j as int),
        decreases t@.len() - j,
    {
        assert(i128::MIN <= col_sum(t@, i as int, j + 1) <= i128::MAX);
        total = total + t[j][i];
        j = j + 1;
    }
    total
}

// ---------------------------------------------------------------------------
// Protocol invariants
// ---------------------------------------------------------------------------

/// Asset `i` has no negative supply, debt or treasury balance.
pub open spec fn totals_nonneg(s: ProtocolSnapshot, i: int) -> bool {
    s.total_supply@[i] >= 0 && s.total_debt@[i] >= 0 && s.treasury_balances@[i] >= 0
}

/// Underlying of asset `i` held by users, the pool and the treasury.
pub open spec fn held_total(s: ProtocolSnapshot, i: int) -> int {
    col_sum(s.user_underlying@, i, s.users() as int) + s.available_liquidity@[i]
        + s.treasury_balances@[i]
}

/// Asset `i`'s underlying differs from its initial total by at most the
/// tolerance.
pub open spec fn conserved(s: ProtocolSnapshot, i: int, initial: u128, tolerance: int) -> bool {
    abs(held_total(s, i) - (initial as i128)) <= tolerance
}

/// Whether the conservation arithmetic of asset `i` fits i128.
pub open spec fn conservation_fits(s: ProtocolSnapshot, i: int, initial: u128) -> bool {
    let users = col_sum(s.user_underlying@, i, s.users() as int);
    &&& col_fits(s.user_underlying@, i)
    &&& i128::MIN <= users + s.available_liquidity@[i] <= i128::MAX
    &&& i128::MIN <= held_total(s, i) <= i128::MAX
    &&& abs_fits(held_total(s, i) - (initial as i128))
}

/// Users' collateral and debt of asset `i` sum to the totals within the
/// tolerance.
pub open spec fn sums_match(s: ProtocolSnapshot, i: int, tolerance: int) -> bool {
    &&& abs(col_sum(s.user_collateral@, i, s.users() as int) - s.total_supply@[i]) <= tolerance
    &&& abs(col_sum(s.user_debt@, i, s.users() as int) - s.total_debt@[i]) <= tolerance
}

/// Whether the balance-sum arithmetic of asset `i` fits i128.
pub open spec fn sums_fit(s: ProtocolSnapshot, i: int) -> bool {
    &&& col_fits(s.user_collateral@, i)
    &&& col_fits(s.user_debt@, i)
    &&& abs_fits(col_sum(s.user_collateral@, i, s.users() as int) - s.total_supply@[i])
    &&& abs_fits(col_sum(s.user_debt@, i, s.users() as int) - s.total_debt@[i])
}

/// A user with debt, where their account could be read, has a positive
/// health factor and an LTV of at most 100%.
pub open spec fn account_sound(s: ProtocolSnapshot, j: int, account: Option<AccountReading>) -> bool {
    any_positive(s.user_debt@[j]@) ==> match account {
        Some(acc) => acc.health_factor > 0 && acc.ltv <= BASIS_POINTS,
        None => true,
    }
}

/// Supply and borrow (in whole tokens) within the reserve's non-zero caps.
pub open spec fn caps_respected(s: ProtocolSnapshot, i: int, reserve: Option<ReserveReading>) -> bool {
    match reserve {
        Some(r) => {
            &&& r.supply_cap > 0 ==> (s.total_supply@[i] as u128) / TOKEN_UNIT <= r.supply_cap
            &&& r.borrow_cap > 0 ==> (s.total_debt@[i] as u128) / TOKEN_UNIT <= r.borrow_cap
        },
        None => true,
    }
}

/// The protocol invariants after an operation.
pub open spec fn protocol_invariants_hold(
    s: ProtocolSnapshot,
    initial_total_underlying: Seq<u128>,
    operation_count: u64,
    accounts: Seq<Option<AccountReading>>,
    reserves: Seq<Option<ReserveReading>>,
) -> bool {
    let tolerance = tolerance_spec(operation_count as int);
    &&& forall|i: int| 0 <= i < s.assets() ==> #[trigger] totals_nonneg(s, i)
    &&& forall|i: int|
        0 <= i < s.assets() ==> #[trigger] conserved(s, i, initial_total_underlying[i], tolerance)
    &&& forall|i: int| 0 <= i < s.assets() ==> #[trigger] sums_match(s, i, tolerance)
    &&& forall|j: int| 0 <= j < s.users() ==> #[trigger] account_sound(s, j, accounts[j])
    &&& forall|i: int| 0 <= i < s.assets() ==> #[trigger] caps_respected(s, i, reserves[i])
}

fn check_nonneg_totals(s: &ProtocolSnapshot) -> (ok: bool)
    requires
        s.shaped(),
    ensures
        ok == (forall|i: int| 0 <= i < s.assets() ==> #[trigger] totals_nonneg(*s, i)),
{
    let mut i: usize = 0;
    while i < s.total_supply.len()
        invariant
            s.shaped(),
            i <= s.assets(),
            forall|k: int| 0 <= k < i ==> #[trigger] totals_nonneg(*s, k),
        decreases s.assets() - i,
    {
        if s.total_supply[i] < 0 || s.total_debt[i] < 0 || s.treasury_balances[i] < 0 {
            assert(!totals_nonneg(*s, i as int));
            return false;
        }
        assert(totals_nonneg(*s, i as int));
        i = i + 1;
    }
    true
}

/// Check the protocol invariants on the snapshot taken after an operation:
/// no negative totals; each asset's underlying (users, pool, treasury) within
/// the rounding budget of its initial total; users' collateral and debt
/// summing to the totals within the budget; every indebted user whose account
/// could be read with a positive health factor and an LTV of at most 100%;
/// supply and borrow caps respected.  `accounts` and `reserves` hold what the
/// router reported, `None` where the query failed.
pub fn verify_protocol_invariants(
    after: &ProtocolSnapshot,
    initial_total_underlying: &Vec<u128>,
    operation_count: u64,
    accounts: &Vec<Option<AccountReading>>,
    reserves: &Vec<Option<ReserveReading>>,
) -> (ok: bool)
    requires
        after.shaped(),
        initial_total_underlying@.len() == after.assets(),
        accounts@.len() == after.users(),
        reserves@.len() == after.assets(),
        forall|i: int|
            0 <= i < after.assets() ==> #[trigger] conservation_fits(
                *after,
                i,
                initial_total_underlying@[i],
            ),
        forall|i: int| 0 <= i < after.assets() ==> #[trigger] sums_fit(*after, i),
    ensures
        ok == protocol_invariants_hold(
            *after,
            initial_total_underlying@,
            operation_count,
            accounts@,
            reserves@,
        ),
{
    let n = after.total_supply.len();
    let m = after.user_collateral.len();
    let tolerance = crate::common::constants::calculate_tolerance(operation_count);
    if !check_nonneg_totals(after) {
        return false;
    }
    let mut i: usize = 0;
    while i < n
        invariant
            after.shaped(),
            n == after.assets(),
            m == after.users(),
            initial_total_underlying@.len() == n,
            tolerance == tolerance_spec(operation_count as int),
            forall|k: int|
                0 <= k < n ==> #[trigger] conservation_fits(*after, k, initial_total_underlying@[k]),
            i <= n,
            forall|k: int|
                0 <= k < i ==> #[trigger] conserved(
                    *after,
                    k,
                    initial_total_underlying@[k],
                    tolerance as int,
                ),
        decreases n - i,
    {
        assert(conservation_fits(*after, i as int, initial_total_underlying@[i as int]));
        let users = column_total(&after.user_underlying, i);
        let total_underlying = users + after.available_liquidity[i] + after.treasury_balances[i];
        let initial = initial_total_underlying[i] as i128;
        let diff = abs_i128(total_underlying - initial);
        if diff > tolerance {
            assert(!conserved(*after, i as int, initial_total_underlying@[i as int], tolerance as int));
            return false;
        }
        i = i + 1;
    }
    let mut i: usize = 0;
    while i < n
        invariant
            after.shaped(),
            n == after.assets(),
            m == after.users(),
            tolerance == tolerance_spec(operation_count as int),
            forall|k: int| 0 <= k < n ==> #[trigger] sums_fit(*after, k),
            i <= n,
            forall|k: int| 0 <= k < i ==> #[trigger] sums_match(*after, k, tolerance as int),
        decreases n - i,
    {
        assert(sums_fit(*after, i as int));
        let collateral_sum = column_total(&after.user_collateral, i);
        let debt_sum = column_total(&after.user_debt, i);
        let collateral_diff = abs_i128(collateral_sum - after.total_supply[i]);
        let debt_diff = abs_i128(debt_sum - after.total_debt[i]);
        if collateral_diff > tolerance || debt_diff > tolerance {
            assert(!sums_match(*after, i as int, tolerance as int));
            return false;
        }
        i = i + 1;
    }
    let mut j: usize = 0;
    while j < m
        invariant
            after.shaped(),
            m == after.users(),
            accounts@.len() == m,
            j <= m,
            forall|k: int| 0 <= k < j ==> #[trigger] account_sound(*after, k, accounts@[k]),
        decreases m - j,
    {
        if has_positive(&after.user_debt[j]) {
            match accounts[j] {
                Some(acc) => {
                    if !(acc.health_factor > 0 && acc.ltv <= BASIS_POINTS as u128) {
                        assert(!account_sound(*after, j as int, accounts@[j as int]));
                        return false;
                    }
                },
                None => {},
            }
        }
        assert(account_sound(*after, j as int, accounts@[j as int]));
        j = j + 1;
    }
    let mut i: usize = 0;
    while i < n
        invariant
            after.shaped(),
            n == after.assets(),
            reserves@.len() == n,
            i <= n,
            forall|k: int| 0 <= k < i ==> #[trigger] caps_respected(*after, k, reserves@[k]),
        decreases n - i,
    {
        match reserves[i] {
            Some(r) => {
                if r.supply_cap > 0 && (after.total_supply[i] as u128) / TOKEN_UNIT > r.supply_cap {
                    assert(!caps_respected(*after, i as int, reserves@[i as int]));
                    return false;
                }
                if r.borrow_cap > 0 && (after.total_debt[i] as u128) / TOKEN_UNIT > r.borrow_cap {
                    assert(!caps_respected(*after, i as int, reserves@[i as int]));
                    return false;
                }
            },
            None => {},
        }
        assert(caps_respected(*after, i as int, reserves@[i as int]));
        i = i + 1;
    }
    true
}

// ---------------------------------------------------------------------------
// Solvency
// ---------------------------------------------------------------------------

/// `min(x, u128::MAX)`.
pub open spec fn sat(x: int) -> int {
    if x > u128::MAX {
        u128::MAX as int
    } else {
        x
    }
}

/// Collateral and debt value of the first `k` assets with a non-zero price,
/// each amount times its price over one token unit, every product and sum
/// saturating at `u128::MAX`.
pub open spec fn value_totals(
    supply: Seq<i128>,
    debt: Seq<i128>,
    prices: Seq<u128>,
    k: int,
) -> (int, int)
    decreases k,
{
    if k <= 0 {
        (0, 0)
    } else {
        let prev = value_totals(supply, debt, prices, k - 1);
        let price = prices[k - 1];
        if price == 0 {
            prev
        } else {
            let collateral_value = sat((supply[k - 1] as u128) * price) / (TOKEN_UNIT as int);
            let debt_value = sat((debt[k - 1] as u128) * price) / (TOKEN_UNIT as int);
            (sat(prev.0 + collateral_value), sat(prev.1 + debt_value))
        }
    }
}

/// The solvency allowance for `operation_count` operations: the rounding
/// budget valued at the highest price.
pub open spec fn solvency_tolerance(operation_count: int) -> int {
    tolerance_spec(operation_count) * MAX_PRICE / (TOKEN_UNIT as int)
}

/// Total collateral value plus the allowance covers total debt value.
pub open spec fn solvent(s: ProtocolSnapshot, prices: Seq<u128>, operation_count: int) -> bool {
    let totals = value_totals(s.total_supply@, s.total_debt@, prices, s.assets() as int);
    totals.0 + solvency_tolerance(operation_count) >= totals.1
}

proof fn lemma_value_totals_cover(supply: Seq<i128>, debt: Seq<i128>, prices: Seq<u128>, k: int)
    requires
        forall|i: int| 0 <= i < k ==> 0 <= #[trigger] debt[i] <= supply[i],
    ensures
        value_totals(supply, debt, prices, k).0 >= value_totals(supply, debt, prices, k).1,
    decreases k,
{
    if k > 0 {
        lemma_value_totals_cover(supply, debt, prices, k - 1);
        let price = prices[k - 1];
        let d = debt[k - 1];
        let c = supply[k - 1];
        assert(0 <= d <= c);
        assert((d as u128) * price <= (c as u128) * price) by (nonlinear_arith)
            requires
                0 <= d <= c,
                price >= 0,
                (d as u128) as int == d,
                (c as u128) as int == c,
        ;
        let u = TOKEN_UNIT as int;
        assert(u > 0);
        let x = sat((d as u128) * price);
        let y = sat((c as u128) * price);
        assert(x <= y);
        assert(x / u <= y / u) by (nonlinear_arith)
            requires
                x <= y,
                u > 0,
        ;
    }
}

/// Debt covered by supply asset by asset keeps the protocol solvent: when
/// no asset has negative debt or more debt than aToken supply, the check
/// passes, after any number of operations and at any prices.
pub proof fn lemma_covered_debt_is_solvent(s: ProtocolSnapshot, prices: Seq<u128>, operation_count: int)
    requires
        operation_count >= 0,
        forall|i: int| 0 <= i < s.assets() ==> 0 <= #[trigger] s.total_debt@[i] <= s.total_supply@[i],
    ensures
        solvent(s, prices, operation_count),
{
    lemma_value_totals_cover(s.total_supply@, s.total_debt@, prices, s.assets() as int);
    let t = tolerance_spec(operation_count);
    assert(t >= 0);
    assert(t * MAX_PRICE / (TOKEN_UNIT as int) >= 0) by (nonlinear_arith)
        requires
            t >= 0,
    ;
}

/// Whether the final comparison of the solvency check fits u128.
pub open spec fn solvency_fits(s: ProtocolSnapshot, prices: Seq<u128>, operation_count: int) -> bool {
    value_totals(s.total_supply@, s.total_debt@, prices, s.assets() as int).0 + solvency_tolerance(
        operation_count,
    ) <= u128::MAX
}

proof fn lemma_value_totals_bounded(supply: Seq<i128>, debt: Seq<i128>, prices: Seq<u128>, k: int)
    ensures
        0 <= value_totals(supply, debt, prices, k).0 <= u128::MAX,
        0 <= value_totals(supply, debt, prices, k).1 <= u128::MAX,
    decreases k,
{
    if k > 0 {
        lemma_value_totals_bounded(supply, debt, prices, k - 1);
    }
}

fn sat_mul(x: u128, y: u128) -> (r: u128)
    ensures
        r == sat(x * y),
{
    match x.checked_mul(y) {
        Some(p) => p,
        None => u128::MAX,
    }
}

/// Check that the protocol is solvent: total collateral value (aToken supply
/// times price) plus the rounding allowance covers total debt value, valuing
/// each asset at `prices` and skipping assets priced at zero.
pub fn verify_protocol_solvency(snapshot: &ProtocolSnapshot, prices: &Vec<u128>, operation_count: u64) -> (ok: bool)
    requires
        snapshot.shaped(),
        prices@.len() == snapshot.assets(),
        solvency_fits(*snapshot, prices@, operation_count as int),
    ensures
        ok == solvent(*snapshot, prices@, operation_count as int),
{
    let n = snapshot.total_supply.len();
    let mut total_collateral_value: u128 = 0;
    let mut total_debt_value: u128 = 0;
    let mut i: usize = 0;
    while i < n
        invariant
            snapshot.shaped(),
            n == snapshot.assets(),
            prices@.len() == n,
            i <= n,
            (total_collateral_value as int, total_debt_value as int) == value_totals(
                snapshot.total_supply@,
                snapshot.total_debt@,
                prices@,
                i as int,
            ),
        decreases n - i,
    {
        let price = prices[i];
        proof {
            lemma_value_totals_bounded(snapshot.total_supply@, snapshot.total_debt@, prices@, i + 1);
        }
        if price != 0 {
            let collateral_value = sat_mul(snapshot.total_supply[i] as u128, price) / TOKEN_UNIT;
            let debt_value = sat_mul(snapshot.total_debt[i] as u128, price) / TOKEN_UNIT;
            total_collateral_value = total_collateral_value.saturating_add(collateral_value);
            total_debt_value = total_debt_value.saturating_add(debt_value);
        }
        i = i + 1;
    }
    let tolerance = (crate::common::constants::calculate_tolerance(operation_count) as u128)
        * MAX_PRICE / TOKEN_UNIT;
    total_collateral_value + tolerance >= total_debt_value
}

// ---------------------------------------------------------------------------
// Final invariants
// ---------------------------------------------------------------------------

/// No negative total, collateral, debt or underlying balance.
pub open spec fn all_nonneg(s: ProtocolSnapshot) -> bool {
    &&& forall|i: int|
        0 <= i < s.assets() ==> #[trigger] s.total_supply@[i] >= 0 && s.total_debt@[i] >= 0
    &&& forall|j: int, i: int|
        0 <= j < s.users() && 0 <= i < s.assets() ==> #[trigger] s.coll(j, i) >= 0 && s.debt(j, i)
            >= 0 && s.under(j, i) >= 0
}

/// Indices at least RAY, rates below ten RAY.
pub open spec fn reserve_final_sound(r: ReserveReading) -> bool {
    &&& r.liquidity_index >= RAY
    &&& r.variable_borrow_index >= RAY
    &&& r.current_liquidity_rate < 10 * RAY
    &&& r.current_variable_borrow_rate < 10 * RAY
}

/// A user with debt, where their account could be read, has a positive
/// health factor.
pub open spec fn final_account_sound(s: ProtocolSnapshot, j: int, account: Option<AccountReading>) -> bool {
    any_positive(s.user_debt@[j]@) ==> match account {
        Some(acc) => acc.health_factor > 0,
        None => true,
    }
}

/// Sum of the first `k` entries.
pub open spec fn seq_sum(v: Seq<u128>, k: int) -> int
    decreases k,
{
    if k <= 0 {
        0
    } else {
        seq_sum(v, k - 1) + v[k - 1]
    }
}

/// Underlying held by users, pools and treasuries over the first `k` assets.
pub open spec fn held_sum(s: ProtocolSnapshot, k: int) -> int
    decreases k,
{
    if k <= 0 {
        0
    } else {
        held_sum(s, k - 1) + held_total(s, k - 1)
    }
}

/// The checks of the final invariants that come before total conservation.
pub open spec fn final_prechecks(
    s: ProtocolSnapshot,
    reserves: Seq<Option<ReserveReading>>,
    accounts: Seq<Option<AccountReading>>,
    prices: Seq<u128>,
    operation_count: int,
) -> bool {
    &&& all_nonneg(s)
    &&& forall|i: int| 0 <= i < reserves.len() ==> match #[trigger] reserves[i] {
        Some(r) => reserve_final_sound(r),
        None => true,
    }
    &&& solvent(s, prices, operation_count)
    &&& forall|j: int| 0 <= j < s.users() ==> #[trigger] final_account_sound(s, j, accounts[j])
}

/// The final invariants at the end of a run.
pub open spec fn final_invariants_hold(
    s: ProtocolSnapshot,
    reserves: Seq<Option<ReserveReading>>,
    accounts: Seq<Option<AccountReading>>,
    prices: Seq<u128>,
    initial_total_underlying: Seq<u128>,
    operation_count: int,
) -> bool {
    &&& final_prechecks(s, reserves, accounts, prices, operation_count)
    &&& abs(held_sum(s, s.assets() as int) - seq_sum(initial_total_underlying, s.assets() as int))
        <= tolerance_spec(operation_count) * s.assets()
}

proof fn lemma_col_sum_nonneg_bounded(t: Seq<Vec<i128>>, i: int, k: int, n: int)
    requires
        0 <= k <= n <= t.len(),
        forall|j: int| 0 <= j < t.len() ==> #[trigger] t[j]@[i] >= 0,
    ensures
        0 <= col_sum(t, i, k) <= col_sum(t, i, n),
    decreases n - k,
{
    if k < n {
        lemma_col_sum_nonneg_bounded(t, i, k, n - 1);
        lemma_col_sum_nonneg_bounded(t, i, n - 1, n - 1);
        assert(t[n - 1]@[i] >= 0);
    } else {
        lemma_col_sum_nonneg(t, i, k);
    }
}

proof fn lemma_col_sum_nonneg(t: Seq<Vec<i128>>, i: int, k: int)
    requires
        0 <= k <= t.len(),
        forall|j: int| 0 <= j < t.len() ==> #[trigger] t[j]@[i] >= 0,
    ensures
        0 <= col_sum(t, i, k),
    decreases k,
{
    if k > 0 {
        lemma_col_sum_nonneg(t, i, k - 1);
        assert(t[k - 1]@[i] >= 0);
    }
}

proof fn lemma_held_sum_bounded(s: ProtocolSnapshot, k: int, n: int)
    requires
        s.shaped(),
        all_nonneg(s),
        forall|i: int| 0 <= i < s.assets() ==> #[trigger] s.available_liquidity@[i] >= 0,
        forall|i: int| 0 <= i < s.assets() ==> #[trigger] s.treasury_balances@[i] >= 0,
        0 <= k <= n <= s.assets(),
    ensures
        0 <= held_sum(s, k) <= held_sum(s, n),
    decreases n,
{
    if n > 0 && k < n {
        lemma_held_sum_bounded(s, k, n - 1);
        lemma_held_nonneg(s, n - 1);
    } else if n > 0 {
        lemma_held_sum_bounded(s, k - 1, n - 1);
        lemma_held_nonneg(s, n - 1);
    }
}

proof fn lemma_held_nonneg(s: ProtocolSnapshot, i: int)
    requires
        s.shaped(),
        all_nonneg(s),
        0 <= i < s.assets(),
        s.available_liquidity@[i] >= 0,
        s.treasury_balances@[i] >= 0,
    ensures
        held_total(s, i) >= 0,
{
    assert forall|j: int| 0 <= j < s.user_underlying@.len() implies #[trigger] s.user_underlying@[j]@[i]
        >= 0 by {
        assert(s.coll(j, i) >= 0 && s.debt(j, i) >= 0 && s.under(j, i) >= 0);
    }
    lemma_col_sum_nonneg(s.user_underlying@, i, s.users() as int);
}

proof fn lemma_seq_sum_bounded(v: Seq<u128>, k: int, n: int)
    requires
        0 <= k <= n <= v.len(),
    ensures
        0 <= seq_sum(v, k) <= seq_sum(v, n),
    decreases n,
{
    if k < n {
        lemma_seq_sum_bounded(v, k, n - 1);
    } else if n > 0 {
        lemma_seq_sum_bounded(v, k - 1, n - 1);
    }
}

fn check_final_balances(s: &ProtocolSnapshot) -> (ok: bool)
    requires
        s.shaped(),
    ensures
        ok == all_nonneg(*s),
{
    let n = s.total_supply.len();
    let m = s.user_collateral.len();
    let mut i: usize = 0;
    while i < n
        invariant
            s.shaped(),
            n == s.assets(),
            m == s.users(),
            i <= n,
            forall|k: int|
                0 <= k < i ==> #[trigger] s.total_supply@[k] >= 0 && s.total_debt@[k] >= 0,
            forall|j: int, k: int|
                0 <= j < m && 0 <= k < i ==> #[trigger] s.coll(j, k) >= 0 && s.debt(j, k) >= 0
                    && s.under(j, k) >= 0,
        decreases n - i,
    {
        if s.total_supply[i] < 0 || s.total_debt[i] < 0 {
            return false;
        }
        let mut j: usize = 0;
        while j < m
            invariant
                s.shaped(),
                n == s.assets(),
                m == s.users(),
                i < n,
                j <= m,
                forall|p: int, k: int|
                    0 <= p < m && 0 <= k < i ==> #[trigger] s.coll(p, k) >= 0 && s.debt(p, k) >= 0
                        && s.under(p, k) >= 0,
                forall|p: int|
                    0 <= p < j ==> #[trigger] s.coll(p, i as int) >= 0 && s.debt(p, i as int) >= 0
                        && s.under(p, i as int) >= 0,
            decreases m - j,
        {
            if s.user_collateral[j][i] < 0 || s.user_debt[j][i] < 0 || s.user_underlying[j][i] < 0 {
                assert(!(s.coll(j as int, i as int) >= 0 && s.debt(j as int, i as int) >= 0 && s.under(
                    j as int,
                    i as int,
                ) >= 0));
                return false;
            }
            j = j + 1;
        }
        i = i + 1;
    }
    true
}

/// Check the final invariants at the end of a run: no negative balance;
/// every readable reserve with indices at least RAY and rates below ten RAY;
/// the protocol solvent; every indebted user with a readable account at a
/// positive health factor; and the underlying held by users, pools and
/// treasuries over all assets within the rounding budget (per asset, times
/// the number of assets) of the initial total.
pub fn verify_final_invariants(
    snapshot: &ProtocolSnapshot,
    reserves: &Vec<Option<ReserveReading>>,
    accounts: &Vec<Option<AccountReading>>,
    prices: &Vec<u128>,
    initial_total_underlying: &Vec<u128>,
    operation_count: u64,
) -> (ok: bool)
    requires
        snapshot.shaped(),
        reserves@.len() == snapshot.assets(),
        accounts@.len() == snapshot.users(),
        prices@.len() == snapshot.assets(),
        initial_total_underlying@.len() == snapshot.assets(),
        all_nonneg(*snapshot) ==> solvency_fits(*snapshot, prices@, operation_count as int),
        final_prechecks(*snapshot, reserves@, accounts@, prices@, operation_count as int) ==> {
            &&& forall|i: int|
                0 <= i < snapshot.assets() ==> #[trigger] snapshot.available_liquidity@[i] >= 0
                    && snapshot.treasury_balances@[i] >= 0
            &&& held_sum(*snapshot, snapshot.assets() as int) <= u128::MAX
            &&& seq_sum(initial_total_underlying@, snapshot.assets() as int) <= u128::MAX
            &&& tolerance_spec(operation_count as int) * snapshot.assets() <= u128::MAX
        },
    ensures
        ok == final_invariants_hold(
            *snapshot,
            reserves@,
            accounts@,
            prices@,
            initial_total_underlying@,
            operation_count as int,
        ),
{
    let n = snapshot.total_supply.len();
    let m = snapshot.user_collateral.len();
    if !check_final_balances(snapshot) {
        return false;
    }
    let mut i: usize = 0;
    while i < reserves.len()
        invariant
            i <= reserves@.len(),
            forall|k: int|
                0 <= k < i ==> match #[trigger] reserves@[k] {
                    Some(r) => reserve_final_sound(r),
                    None => true,
                },
        decreases reserves@.len() - i,
    {
        match reserves[i] {
            Some(r) => {
                if !(r.liquidity_index >= RAY && r.variable_borrow_index >= RAY
                    && r.current_liquidity_rate < 10 * RAY && r.current_variable_borrow_rate < 10
                    * RAY) {
                    return false;
                }
            },
            None => {},
        }
        i = i + 1;
    }
    if !verify_protocol_solvency(snapshot, prices, operation_count) {
        return false;
    }
    let mut j: usize = 0;
    while j < m
        invariant
            snapshot.shaped(),
            m == snapshot.users(),
            accounts@.len() == m,
            j <= m,
            forall|k: int| 0 <= k < j ==> #[trigger] final_account_sound(*snapshot, k, accounts@[k]),
        decreases m - j,
    {
        if has_positive(&snapshot.user_debt[j]) {
            match accounts[j] {
                Some(acc) => {
                    if acc.health_factor == 0 {
                        assert(!final_account_sound(*snapshot, j as int, accounts@[j as int]));
                        return false;
                    }
                },
                None => {},
            }
        }
        assert(final_account_sound(*snapshot, j as int, accounts@[j as int]));
        j = j + 1;
    }
    assert(final_prechecks(*snapshot, reserves@, accounts@, prices@, operation_count as int));
    let mut total_initial: u128 = 0;
    let mut total_current: u128 = 0;
    let mut i: usize = 0;
    while i < n
        invariant
            snapshot.shaped(),
            n == snapshot.assets(),
            m == snapshot.users(),
            initial_total_underlying@.len() == n,
            all_nonneg(*snapshot),
            forall|k: int|
                0 <= k < n ==> #[trigger] snapshot.available_liquidity@[k] >= 0
                    && snapshot.treasury_balances@[k] >= 0,
            held_sum(*snapshot, n as int) <= u128::MAX,
            seq_sum(initial_total_underlying@, n as int) <= u128::MAX,
            i <= n,
            total_initial == seq_sum(initial_total_underlying@, i as int),
            total_current == held_sum(*snapshot, i as int),
        decreases n - i,
    {
        proof {
            lemma_seq_sum_bounded(initial_total_underlying@, i + 1, n as int);
            assert forall|k: int| 0 <= k < snapshot.available_liquidity@.len() implies #[trigger]
                snapshot.available_liquidity@[k] >= 0 by {
                assert(snapshot.available_liquidity@[k] >= 0 && snapshot.treasury_balances@[k] >= 0);
            }
            assert forall|k: int| 0 <= k < snapshot.treasury_balances@.len() implies #[trigger]
                snapshot.treasury_balances@[k] >= 0 by {
                assert(snapshot.available_liquidity@[k] >= 0 && snapshot.treasury_balances@[k] >= 0);
            }
            lemma_held_sum_bounded(*snapshot, i + 1, n as int);
            assert forall|j: int| 0 <= j < snapshot.user_underlying@.len() implies #[trigger]
                snapshot.user_underlying@[j]@[i as int] >= 0 by {
                assert(snapshot.coll(j, i as int) >= 0 && snapshot.debt(j, i as int) >= 0
                    && snapshot.under(j, i as int) >= 0);
            }
        }
        total_initial = total_initial + initial_total_underlying[i];
        let mut asset_current: u128 = 0;
        let mut j: usize = 0;
        while j < m
            invariant
                snapshot.shaped(),
                n == snapshot.assets(),
                m == snapshot.users(),
                i < n,
                forall|p: int|
                    0 <= p < snapshot.user_underlying@.len() ==> #[trigger] snapshot.user_underlying@[p]@[i as int]
                        >= 0,
                col_sum(snapshot.user_underlying@, i as int, m as int) <= u128::MAX,
                j <= m,
                asset_current == col_sum(snapshot.user_underlying@, i as int, j as int),
            decreases m - j,
        {
            proof {
                lemma_col_sum_nonneg_bounded(snapshot.user_underlying@, i as int, j + 1, m as int);
            }
            asset_current = asset_current + snapshot.user_underlying[j][i] as u128;
            j = j + 1;
        }
        asset_current = asset_current + snapshot.available_liquidity[i] as u128;
        asset_current = asset_current + snapshot.treasury_balances[i] as u128;
        total_current = total_current + asset_current;
        i = i + 1;
    }
    let total_tolerance = (crate::common::constants::calculate_tolerance(operation_count) as u128) * (
    n as u128);
    let diff = if total_current > total_initial {
        total_current - total_initial
    } else {
        total_initial - total_current
    };
    diff <= total_tolerance
}

} // verus!
