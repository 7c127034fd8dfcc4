//! Economic-exploit checks of the multi-asset fuzzer: no user gains more
//! than a generous yield, liquidators get no more than the bonus, utilization
//! does not jump without a change in supply or debt, the treasury does not
//! gain more than users lose, and the treasury's share of interest follows
//! the reserve factor.
use vstd::prelude::*;
use crate::common::constants::{RAY, SECONDS_PER_YEAR, WAD};
use crate::common::invariants::{comparable, effective_bonus, tdiv};
use crate::common::snapshot::{ProtocolSnapshot, ReserveReading};

verus! {

/// `x` clamped to the i128 range.
pub open spec fn sat_i128(x: int) -> int {
    if x > i128::MAX {
        i128::MAX as int
    } else if x < i128::MIN {
        i128::MIN as int
    } else {
        x
    }
}

/// A price as the signed number the value check multiplies by.
pub open spec fn signed_price(p: u128) -> int {
    (p as i128) as int
}

/// User `j`'s net position in asset `i` (underlying plus collateral less
/// debt) valued at price `p`.
pub open spec fn position_value(s: ProtocolSnapshot, j: int, i: int, p: int) -> int {
    (s.under(j, i) + s.coll(j, i) - s.debt(j, i)) * p
}

/// User `j`'s value over the first `k` assets with a non-zero price.
pub open spec fn user_value(s: ProtocolSnapshot, j: int, prices: Seq<u128>, k: int) -> int
    decreases k,
{
    if k <= 0 {
        0
    } else if signed_price(prices[k - 1]) == 0 {
        user_value(s, j, prices, k - 1)
    } else {
        user_value(s, j, prices, k - 1) + position_value(s, j, k - 1, signed_price(prices[k - 1]))
    }
}

/// Whether computing user `j`'s value fits i128 at every step.
pub open spec fn user_value_fits(s: ProtocolSnapshot, j: int, prices: Seq<u128>) -> bool {
    &&& forall|i: int|
        0 <= i < prices.len() && signed_price(prices[i]) != 0 ==> {
            &&& i128::MIN <= s.under(j, i) + s.coll(j, i) <= i128::MAX
            &&& i128::MIN <= s.under(j, i) + s.coll(j, i) - s.debt(j, i) <= i128::MAX
            &&& i128::MIN <= #[trigger] position_value(s, j, i, signed_price(prices[i])) <= i128::MAX
        }
    &&& forall|k: int|
        0 <= k <= prices.len() ==> i128::MIN <= #[trigger] user_value(s, j, prices, k) <= i128::MAX
}

/// The most a user may legitimately gain over `time_delta` seconds from a
/// value of `before_value`: 100% a year, computed in millionths of a year.
pub open spec fn max_legit_gain(before_value: int, time_delta: int) -> int {
    if time_delta > 0 && before_value > 0 {
        let years_fraction = time_delta * 1_000_000 / (SECONDS_PER_YEAR as int);
        sat_i128(before_value * years_fraction) / 1_000_000
    } else {
        0
    }
}

/// The rounding allowance on a value: 1% plus ten million units.
pub open spec fn value_tolerance(before_value: int) -> int {
    (if before_value < 0 {
        -before_value
    } else {
        before_value
    }) / 100 + 10_000_000
}

/// User `j`'s gain stays within the legitimate gain plus the allowance,
/// or within twice the allowance, or the user lost collateral (a
/// liquidation).
pub open spec fn no_extraction_for(
    b: ProtocolSnapshot,
    a: ProtocolSnapshot,
    j: int,
    prices: Seq<u128>,
) -> bool {
    let n = prices.len() as int;
    let before_value = user_value(b, j, prices, n);
    let after_value = user_value(a, j, prices, n);
    let max_gain = max_legit_gain(before_value, a.timestamp - b.timestamp);
    let tolerance = value_tolerance(before_value);
    let gain = after_value - before_value;
    gain > max_gain + tolerance ==> ((exists|i: int|
        0 <= i < n && #[trigger] a.coll(j, i) < b.coll(j, i)) || gain <= max_gain + tolerance * 2)
}

/// Changing one position of a user changes the user's value by exactly the
/// change of that position, valued at its price: underlying and collateral
/// count for the user, debt against them.  Positions of assets without a
/// price, or beyond the first `k`, do not count.
pub proof fn lemma_user_value_one_position(
    s: ProtocolSnapshot,
    t: ProtocolSnapshot,
    j: int,
    prices: Seq<u128>,
    i: int,
    k: int,
)
    requires
        forall|x: int|
            0 <= x < k && x != i ==> #[trigger] t.under(j, x) == s.under(j, x) && t.coll(j, x) == s.coll(j, x)
                && t.debt(j, x) == s.debt(j, x),
    ensures
        user_value(t, j, prices, k) - user_value(s, j, prices, k) == (if 0 <= i < k && signed_price(prices[i])
            != 0 {
            ((t.under(j, i) - s.under(j, i)) + (t.coll(j, i) - s.coll(j, i)) - (t.debt(j, i) - s.debt(j, i)))
                * signed_price(prices[i])
        } else {
            0
        }),
    decreases k,
{
    if k > 0 {
        lemma_user_value_one_position(s, t, j, prices, i, k - 1);
        let x = k - 1;
        let p = signed_price(prices[x]);
        if x == i {
            let dt = t.under(j, i) + t.coll(j, i) - t.debt(j, i);
            let ds = s.under(j, i) + s.coll(j, i) - s.debt(j, i);
            assert(dt * p - ds * p == (dt - ds) * p) by (nonlinear_arith);
        } else {
            assert(t.under(j, x) == s.under(j, x) && t.coll(j, x) == s.coll(j, x) && t.debt(j, x) == s.debt(j, x));
        }
    }
}

/// A borrow is no value extraction: when only one of a user's positions
/// changed, its collateral stayed, and its underlying rose by exactly what
/// its debt rose by (the borrowed tokens), the user's value is unchanged and
/// the check passes for that user, whatever the prices and the time.
pub proof fn lemma_borrow_is_no_extraction(
    b: ProtocolSnapshot,
    a: ProtocolSnapshot,
    j: int,
    i: int,
    prices: Seq<u128>,
)
    requires
        forall|x: int|
            0 <= x < prices.len() && x != i ==> #[trigger] a.under(j, x) == b.under(j, x) && a.coll(j, x)
                == b.coll(j, x) && a.debt(j, x) == b.debt(j, x),
        a.coll(j, i) == b.coll(j, i),
        a.under(j, i) - b.under(j, i) == a.debt(j, i) - b.debt(j, i),
    ensures
        user_value(a, j, prices, prices.len() as int) == user_value(b, j, prices, prices.len() as int),
        no_extraction_for(b, a, j, prices),
{
    lemma_user_value_one_position(b, a, j, prices, i, prices.len() as int);
    let z = (a.under(j, i) - b.under(j, i)) + (a.coll(j, i) - b.coll(j, i)) - (a.debt(j, i) - b.debt(j, i));
    assert(z == 0);
    if 0 <= i < prices.len() {
        let p = signed_price(prices[i]);
        assert(z * p == 0) by (nonlinear_arith)
            requires
                z == 0,
        ;
    }
    let n = prices.len() as int;
    let before_value = user_value(b, j, prices, n);
    let td = a.timestamp - b.timestamp;
    if td > 0 && before_value > 0 {
        let spy = SECONDS_PER_YEAR as int;
        assert(spy > 0);
        let yf = td * 1_000_000 / spy;
        assert(yf >= 0) by (nonlinear_arith)
            requires
                td > 0,
                spy > 0,
                yf == td * 1_000_000 / spy,
        ;
        assert(before_value * yf >= 0) by (nonlinear_arith)
            requires
                before_value > 0,
                yf >= 0,
        ;
    }
    assert(max_legit_gain(before_value, td) >= 0);
    assert(value_tolerance(before_value) > 0);
}

fn user_value_exec(s: &ProtocolSnapshot, j: usize, prices: &Vec<u128>) -> (v: i128)
    requires
        s.shaped(),
        j < s.users(),
        prices@.len() == s.assets(),
        user_value_fits(*s, j as int, prices@),
    ensures
        v == user_value(*s, j as int, prices@, prices@.len() as int),
{
    let mut value: i128 = 0;
    let mut i: usize = 0;
    while i < prices.len()
        invariant
            s.shaped(),
            j < s.users(),
            prices@.len() == s.assets(),
            user_value_fits(*s, j as int, prices@),
            i <= prices@.len(),
            value == user_value(*s, j as int, prices@, i as int),
        decreases prices@.len() - i,
    {
        let price = prices[i] as i128;
        if price != 0 {
            assert(i128::MIN <= position_value(*s, j as int, i as int, signed_price(prices@[i as int]))
                <= i128::MAX);
            assert(i128::MIN <= user_value(*s, j as int, prices@, i + 1) <= i128::MAX);
            let held = s.user_underlying[j][i] + s.user_collateral[j][i];
            let net = held - s.user_debt[j][i];
            value = value + net * price;
        }
        i = i + 1;
    }
    value
}

/// Check that no user gained more than 100% a year on their value (plus 1%
/// and dust), unless collateral left them (a liquidation), and even then
/// not more than twice that allowance.  Values are underlying plus
/// collateral less debt, times price, over assets with a non-zero price.
pub fn verify_no_value_extraction(before: &ProtocolSnapshot, after: &ProtocolSnapshot, prices: &Vec<u128>) -> (ok: bool)
    requires
        comparable(*before, *after),
        prices@.len() == before.assets(),
        forall|j: int|
            0 <= j < before.users() ==> #[trigger] user_value_fits(*before, j, prices@)
                && user_value_fits(*after, j, prices@),
        forall|j: int|
            0 <= j < before.users() ==> i128::MIN < #[trigger] user_value(
                *before,
                j,
                prices@,
                prices@.len() as int,
            ),
        forall|j: int|
            0 <= j < before.users() ==> i128::MIN <= #[trigger] user_value(
                *after,
                j,
                prices@,
                prices@.len() as int,
            ) - user_value(*before, j, prices@, prices@.len() as int) <= i128::MAX,
    ensures
        ok == (forall|j: int|
            0 <= j < before.users() ==> #[trigger] no_extraction_for(*before, *after, j, prices@)),
{
    let time_delta = after.timestamp.saturating_sub(before.timestamp);
    let m = before.user_collateral.len();
    let n = prices.len();
    let mut j: usize = 0;
    while j < m
        invariant
            comparable(*before, *after),
            prices@.len() == before.assets(),
            n == prices@.len(),
            m == before.users(),
            time_delta == (if after.timestamp > before.timestamp {
                after.timestamp - before.timestamp
            } else {
                0
            }),
            forall|k: int|
                0 <= k < before.users() ==> #[trigger] user_value_fits(*before, k, prices@)
                    && user_value_fits(*after, k, prices@),
            forall|k: int|
                0 <= k < before.users() ==> i128::MIN < #[trigger] user_value(
                    *before,
                    k,
                    prices@,
                    prices@.len() as int,
                ),
            forall|k: int|
                0 <= k < before.users() ==> i128::MIN <= #[trigger] user_value(
                    *after,
                    k,
                    prices@,
                    prices@.len() as int,
                ) - user_value(*before, k, prices@, prices@.len() as int) <= i128::MAX,
            j <= m,
            forall|k: int| 0 <= k < j ==> #[trigger] no_extraction_for(*before, *after, k, prices@),
        decreases m - j,
    {
        assert(user_value_fits(*before, j as int, prices@) && user_value_fits(*after, j as int, prices@));
        assert(i128::MIN < user_value(*before, j as int, prices@, prices@.len() as int));
        assert(i128::MIN <= user_value(*after, j as int, prices@, prices@.len() as int) - user_value(
            *before,
            j as int,
            prices@,
            prices@.len() as int,
        ) <= i128::MAX);
        let before_value = user_value_exec(before, j, prices);
        let after_value = user_value_exec(after, j, prices);
        let max_gain: i128 = if time_delta > 0 && before_value > 0 {
            let years_fraction = (time_delta as i128) * 1_000_000 / (SECONDS_PER_YEAR as i128);
            let scaled = match before_value.checked_mul(years_fraction) {
                Some(p) => p,
                None => i128::MAX,
            };
            proof {
                assert(before_value * years_fraction >= 0) by (nonlinear_arith)
                    requires
                        before_value > 0,
                        years_fraction >= 0,
                ;
            }
            scaled / 1_000_000
        } else {
            0
        };
        let magnitude = if before_value < 0 {
            -before_value
        } else {
            before_value
        };
        let tolerance = magnitude / 100 + 10_000_000;
        let actual_gain = after_value - before_value;
        proof {
            assert(max_gain <= i128::MAX / 1_000_000);
            assert(tolerance <= i128::MAX / 100 + 10_000_000);
        }
        if actual_gain > max_gain + tolerance {
            let mut decreased = false;
            let mut i: usize = 0;
            while i < n
                invariant
                    comparable(*before, *after),
                    n == prices@.len(),
                    n == before.assets(),
                    j < before.users(),
                    i <= n,
                    decreased == (exists|k: int|
                        0 <= k < i && #[trigger] after.coll(j as int, k) < before.coll(j as int, k)),
                decreases n - i,
            {
                if after.user_collateral[j][i] < before.user_collateral[j][i] {
                    assert(after.coll(j as int, i as int) < before.coll(j as int, i as int));
                    decreased = true;
                }
                i = i + 1;
            }
            if !decreased && actual_gain > max_gain + tolerance * 2 {
                assert(!no_extraction_for(*before, *after, j as int, prices@));
                return false;
            }
        }
        assert(no_extraction_for(*before, *after, j as int, prices@));
        j = j + 1;
    }
    true
}

// ---------------------------------------------------------------------------
// Liquidation fairness
// ---------------------------------------------------------------------------

/// The bonus used to judge a liquidation: the reserve's bonus (without a
/// leading 100%), or 5% when it could not be read.
pub open spec fn bonus_bps(bonus: Option<u128>) -> int {
    match bonus {
        Some(b) => effective_bonus(b as int),
        None => 500,
    }
}

/// The quantities a liquidation is judged by.
pub open spec fn debt_repaid(b: ProtocolSnapshot, a: ProtocolSnapshot, uj: int, di: int) -> int {
    (b.debt(uj, di) - a.debt(uj, di)) as u128 as int
}

/// Collateral the liquidator received.
pub open spec fn collateral_received(b: ProtocolSnapshot, a: ProtocolSnapshot, lj: int, ci: int) -> int {
    (a.coll(lj, ci) - b.coll(lj, ci)) as u128 as int
}

/// The most collateral value a liquidation may hand out for `debt_value`:
/// the debt value plus the bonus.
pub open spec fn max_collateral_value(debt_value: int, bonus: int) -> int {
    debt_value * (10000 + bonus) / 10000
}

/// The health factor check: a user whose health factor was captured must
/// have been below 1 before being liquidated.
pub open spec fn was_liquidatable(b: ProtocolSnapshot, uj: int) -> bool {
    b.health_factors@[uj] < u128::MAX ==> b.health_factors@[uj] < WAD
}

/// Only a user below a health factor of 1 may be liquidated: a captured
/// health factor of 1 or more (short of the "not captured" value
/// `u128::MAX`) makes the liquidation invalid, one below 1 makes it valid,
/// and an uncaptured one is not held against it.
pub proof fn lemma_liquidatable_below_one(b: ProtocolSnapshot, uj: int)
    ensures
        WAD <= b.health_factors@[uj] < u128::MAX ==> !was_liquidatable(b, uj),
        b.health_factors@[uj] < WAD ==> was_liquidatable(b, uj),
        b.health_factors@[uj] == u128::MAX ==> was_liquidatable(b, uj),
{
}

/// The collateral the liquidator got is worth at most the debt repaid plus
/// the bonus, plus 1%.
pub open spec fn fair_liquidation(
    b: ProtocolSnapshot,
    a: ProtocolSnapshot,
    lj: int,
    uj: int,
    ci: int,
    di: int,
    bonus: Option<u128>,
    prices: Seq<u128>,
) -> bool {
    let debt_price = prices[di];
    let collateral_price = prices[ci];
    (debt_price > 0 && collateral_price > 0) ==> {
        let debt_value = debt_repaid(b, a, uj, di) * debt_price;
        let collateral_value = collateral_received(b, a, lj, ci) * collateral_price;
        let max_value = max_collateral_value(debt_value, bonus_bps(bonus));
        collateral_value <= max_value + max_value / 100
    }
}

/// A liquidator who received collateral worth no more than the debt it
/// repaid was paid fairly, whatever the bonus; and a liquidation where
/// either price is zero is not judged by value.
pub proof fn lemma_fair_within_debt_value(
    b: ProtocolSnapshot,
    a: ProtocolSnapshot,
    lj: int,
    uj: int,
    ci: int,
    di: int,
    bonus: Option<u128>,
    prices: Seq<u128>,
)
    ensures
        collateral_received(b, a, lj, ci) * prices[ci] <= debt_repaid(b, a, uj, di) * prices[di]
            ==> fair_liquidation(b, a, lj, uj, ci, di, bonus, prices),
        prices[ci] == 0 || prices[di] == 0 ==> fair_liquidation(b, a, lj, uj, ci, di, bonus, prices),
{
    let dv = debt_repaid(b, a, uj, di) * prices[di];
    let bb = bonus_bps(bonus);
    assert(bb >= 0);
    assert(dv >= 0) by (nonlinear_arith)
        requires
            debt_repaid(b, a, uj, di) >= 0,
            prices[di] >= 0,
            dv == debt_repaid(b, a, uj, di) * prices[di],
    ;
    assert(max_collateral_value(dv, bb) >= dv) by (nonlinear_arith)
        requires
            dv >= 0,
            bb >= 0,
            max_collateral_value(dv, bb) == dv * (10000 + bb) / 10000,
    ;
}

/// Whether the arithmetic of the fairness check fits its types.
pub open spec fn fairness_fits(
    b: ProtocolSnapshot,
    a: ProtocolSnapshot,
    lj: int,
    uj: int,
    ci: int,
    di: int,
    bonus: Option<u128>,
    prices: Seq<u128>,
) -> bool {
    let debt_price = prices[di];
    let collateral_price = prices[ci];
    let debt_value = debt_repaid(b, a, uj, di) * debt_price;
    let max_value = max_collateral_value(debt_value, bonus_bps(bonus));
    &&& i128::MIN <= b.debt(uj, di) - a.debt(uj, di) <= i128::MAX
    &&& i128::MIN <= a.coll(lj, ci) - b.coll(lj, ci) <= i128::MAX
    &&& (debt_price > 0 && collateral_price > 0) ==> {
        &&& debt_value <= u128::MAX
        &&& collateral_received(b, a, lj, ci) * collateral_price <= u128::MAX
        &&& debt_value * (10000 + bonus_bps(bonus)) <= u128::MAX
        &&& max_value + max_value / 100 <= u128::MAX
    }
}

/// Check a successful liquidation of user `liquidated_idx` by
/// `liquidator_idx` (indices modulo the users, assets modulo the assets):
/// the user was below a health factor of 1 beforehand (where it was
/// captured), and the liquidator's collateral gain is worth at most the debt
/// repaid plus the bonus, plus 1%.  `bonus` is the collateral reserve's
/// liquidation bonus where it could be read.
pub fn verify_liquidation_fairness(
    before: &ProtocolSnapshot,
    after: &ProtocolSnapshot,
    liquidator_idx: usize,
    liquidated_idx: usize,
    collateral_idx: usize,
    debt_idx: usize,
    success: bool,
    bonus: Option<u128>,
    prices: &Vec<u128>,
) -> (ok: bool)
    requires
        comparable(*before, *after),
        prices@.len() == before.assets(),
        success ==> before.assets() > 0 && before.users() > 0,
        success && was_liquidatable(*before, (liquidated_idx as int) % (before.users() as int))
            ==> fairness_fits(
            *before,
            *after,
            (liquidator_idx as int) % (before.users() as int),
            (liquidated_idx as int) % (before.users() as int),
            (collateral_idx as int) % (before.assets() as int),
            (debt_idx as int) % (before.assets() as int),
            bonus,
            prices@,
        ),
    ensures
        success && WAD <= before.health_factors@[(liquidated_idx as int) % (before.users() as int)]
            < u128::MAX ==> !ok,
        ok == (success ==> {
            let m = before.users() as int;
            let n = before.assets() as int;
            &&& was_liquidatable(*before, (liquidated_idx as int) % m)
            &&& fair_liquidation(
                *before,
                *after,
                (liquidator_idx as int) % m,
                (liquidated_idx as int) % m,
                (collateral_idx as int) % n,
                (debt_idx as int) % n,
                bonus,
                prices@,
            )
        }),
{
    if !success {
        return true;
    }
    let n = before.total_supply.len();
    let m = before.user_collateral.len();
    let ci = collateral_idx % n;
    let di = debt_idx % n;
    let liq_j = liquidator_idx % m;
    let user_j = liquidated_idx % m;
    let before_hf = before.health_factors[user_j];
    if before_hf < u128::MAX && before_hf >= WAD {
        return false;
    }
    let bonus_bps: u128 = match bonus {
        Some(b) => if b > 10000 {
            b - 10000
        } else {
            b
        },
        None => 500,
    };
    let debt_repaid = (before.user_debt[user_j][di] - after.user_debt[user_j][di]) as u128;
    let collateral_received = (after.user_collateral[liq_j][ci] - before.user_collateral[liq_j][ci]) as u128;
    let debt_price = prices[di];
    let collateral_price = prices[ci];
    if debt_price > 0 && collateral_price > 0 {
        let debt_value = debt_repaid * debt_price;
        let collateral_value = collateral_received * collateral_price;
        let max_value = debt_value * (10000 + bonus_bps) / 10000;
        let tolerance = max_value / 100;
        collateral_value <= max_value + tolerance
    } else {
        true
    }
}

// ---------------------------------------------------------------------------
// Rate manipulation
// ---------------------------------------------------------------------------

/// Utilization of a snapshot's asset `i`: debt over aToken supply, in RAY
/// (0 without supply).
pub open spec fn utilization(s: ProtocolSnapshot, i: int) -> int {
    if s.total_supply@[i] > 0 {
        (s.total_debt@[i] as u128) * RAY / (s.total_supply@[i] as int)
    } else {
        0
    }
}

/// A utilization change of more than 50% needs a change in supply or debt,
/// and a readable reserve has a borrow rate of at most 1000% that is not
/// below its supply rate.
pub open spec fn rates_sound(b: ProtocolSnapshot, a: ProtocolSnapshot, i: int, reserve: Option<ReserveReading>) -> bool {
    let before_util = utilization(b, i);
    let after_util = utilization(a, i);
    let change = if after_util > before_util {
        after_util - before_util
    } else {
        before_util - after_util
    };
    &&& change > RAY / 2 ==> (a.total_supply@[i] != b.total_supply@[i] || a.total_debt@[i]
        != b.total_debt@[i])
    &&& match reserve {
        Some(r) => r.current_variable_borrow_rate <= 10 * RAY && r.current_liquidity_rate
            <= r.current_variable_borrow_rate,
        None => true,
    }
}

/// Whether the utilization arithmetic of asset `i` fits its types.
pub open spec fn utilization_change_fits(b: ProtocolSnapshot, a: ProtocolSnapshot, i: int) -> bool {
    &&& b.total_supply@[i] > 0 ==> (b.total_debt@[i] as u128) * RAY <= u128::MAX
    &&& a.total_supply@[i] > 0 ==> (a.total_debt@[i] as u128) * RAY <= u128::MAX
    &&& i128::MIN < a.total_supply@[i] - b.total_supply@[i] <= i128::MAX
    &&& i128::MIN < a.total_debt@[i] - b.total_debt@[i] <= i128::MAX
}

/// Check every asset for utilization jumps of more than 50% without a change
/// in supply or debt, and every readable reserve for a borrow rate above
/// 1000% or below the supply rate.
pub fn verify_no_rate_manipulation(
    before: &ProtocolSnapshot,
    after: &ProtocolSnapshot,
    reserves: &Vec<Option<ReserveReading>>,
) -> (ok: bool)
    requires
        comparable(*before, *after),
        reserves@.len() == before.assets(),
        forall|i: int| 0 <= i < before.assets() ==> #[trigger] utilization_change_fits(*before, *after, i),
    ensures
        ok == (forall|i: int|
            0 <= i < before.assets() ==> #[trigger] rates_sound(*before, *after, i, reserves@[i])),
{
    let n = before.total_supply.len();
    let mut i: usize = 0;
    while i < n
        invariant
            comparable(*before, *after),
            reserves@.len() == before.assets(),
            n == before.assets(),
            forall|k: int| 0 <= k < n ==> #[trigger] utilization_change_fits(*before, *after, k),
            i <= n,
            forall|k: int| 0 <= k < i ==> #[trigger] rates_sound(*before, *after, k, reserves@[k]),
        decreases n - i,
    {
        assert(utilization_change_fits(*before, *after, i as int));
        let before_util: u128 = if before.total_supply[i] > 0 {
            (before.total_debt[i] as u128 * RAY) / (before.total_supply[i] as u128)
        } else {
            0
        };
        let after_util: u128 = if after.total_supply[i] > 0 {
            (after.total_debt[i] as u128 * RAY) / (after.total_supply[i] as u128)
        } else {
            0
        };
        let util_change = if after_util > before_util {
            after_util - before_util
        } else {
            before_util - after_util
        };
        if util_change > RAY / 2 {
            let supply_delta = after.total_supply[i] - before.total_supply[i];
            let debt_delta = after.total_debt[i] - before.total_debt[i];
            let supply_changed = (if supply_delta < 0 {
                -supply_delta
            } else {
                supply_delta
            }) > 0;
            let debt_changed = (if debt_delta < 0 {
                -debt_delta
            } else {
                debt_delta
            }) > 0;
            if !(supply_changed || debt_changed) {
                assert(!rates_sound(*before, *after, i as int, reserves@[i as int]));
                return false;
            }
        }
        match reserves[i] {
            Some(r) => {
                if !(r.current_variable_borrow_rate <= 10 * RAY && r.current_liquidity_rate
                    <= r.current_variable_borrow_rate) {
                    assert(!rates_sound(*before, *after, i as int, reserves@[i as int]));
                    return false;
                }
            },
            None => {},
        }
        assert(rates_sound(*before, *after, i as int, reserves@[i as int]));
        i = i + 1;
    }
    true
}

// ---------------------------------------------------------------------------
// Admin abuse
// ---------------------------------------------------------------------------

/// User `j`'s holdings of asset `i` net of debt, as the unsigned amount the
/// check uses (underlying plus collateral, less debt, floored at zero).
pub open spec fn net_holding(s: ProtocolSnapshot, j: int, i: int) -> int {
    let held = ((s.under(j, i) + s.coll(j, i)) as u128) as int;
    let owed = (s.debt(j, i) as u128) as int;
    if held > owed {
        held - owed
    } else {
        0
    }
}

/// User `j`'s net holdings over the first `k` assets, valued at price
/// (zero-priced assets skipped).
pub open spec fn row_value(s: ProtocolSnapshot, j: int, prices: Seq<u128>, k: int) -> int
    decreases k,
{
    if k <= 0 {
        0
    } else if prices[k - 1] == 0 {
        row_value(s, j, prices, k - 1)
    } else {
        row_value(s, j, prices, k - 1) + net_holding(s, j, k - 1) * prices[k - 1]
    }
}

/// The first `jj` users' net holdings, valued at price.
pub open spec fn users_value(s: ProtocolSnapshot, prices: Seq<u128>, jj: int) -> int
    decreases jj,
{
    if jj <= 0 {
        0
    } else {
        users_value(s, prices, jj - 1) + row_value(s, jj - 1, prices, prices.len() as int)
    }
}

/// The treasury's gain over the first `k` assets, valued at price.
pub open spec fn treasury_gain(b: ProtocolSnapshot, a: ProtocolSnapshot, prices: Seq<u128>, k: int) -> int
    decreases k,
{
    if k <= 0 {
        0
    } else if prices[k - 1] == 0 {
        treasury_gain(b, a, prices, k - 1)
    } else {
        treasury_gain(b, a, prices, k - 1) + ((a.treasury_balances@[k - 1] - b.treasury_balances@[k
            - 1]) as u128) * prices[k - 1]
    }
}

/// If users lost value, the treasury gained at most that loss plus 10% and
/// dust.
pub open spec fn admin_did_not_steal(b: ProtocolSnapshot, a: ProtocolSnapshot, prices: Seq<u128>) -> bool {
    let m = b.users() as int;
    let before_total = users_value(b, prices, m);
    let after_total = users_value(a, prices, m);
    after_total < before_total ==> {
        let loss = before_total - after_total;
        treasury_gain(b, a, prices, prices.len() as int) <= loss + (loss / 10 + 10_000_000)
    }
}

proof fn lemma_row_value_mono(s: ProtocolSnapshot, j: int, prices: Seq<u128>, k: int, n: int)
    requires
        0 <= k <= n <= prices.len(),
    ensures
        0 <= row_value(s, j, prices, k) <= row_value(s, j, prices, n),
    decreases n,
{
    if n > 0 && k < n {
        lemma_row_value_mono(s, j, prices, k, n - 1);
        assert(net_holding(s, j, n - 1) * prices[n - 1] >= 0) by (nonlinear_arith)
            requires
                net_holding(s, j, n - 1) >= 0,
                prices[n - 1] >= 0,
        ;
    } else if n > 0 {
        lemma_row_value_mono(s, j, prices, k - 1, n - 1);
        assert(net_holding(s, j, n - 1) * prices[n - 1] >= 0) by (nonlinear_arith)
            requires
                net_holding(s, j, n - 1) >= 0,
                prices[n - 1] >= 0,
        ;
    }
}

proof fn lemma_users_value_mono(s: ProtocolSnapshot, prices: Seq<u128>, k: int, n: int)
    requires
        0 <= k <= n,
    ensures
        0 <= users_value(s, prices, k) <= users_value(s, prices, n),
    decreases n,
{
    if n > 0 {
        lemma_row_value_mono(s, n - 1, prices, 0, prices.len() as int);
        if k < n {
            lemma_users_value_mono(s, prices, k, n - 1);
        } else {
            lemma_users_value_mono(s, prices, k - 1, n - 1);
        }
    }
}

proof fn lemma_treasury_gain_mono(b: ProtocolSnapshot, a: ProtocolSnapshot, prices: Seq<u128>, k: int, n: int)
    requires
        0 <= k <= n <= prices.len(),
    ensures
        0 <= treasury_gain(b, a, prices, k) <= treasury_gain(b, a, prices, n),
    decreases n,
{
    if n > 0 {
        let g = ((a.treasury_balances@[n - 1] - b.treasury_balances@[n - 1]) as u128) as int;
        assert(g * prices[n - 1] >= 0) by (nonlinear_arith)
            requires
                g >= 0,
                prices[n - 1] >= 0,
        ;
        if k < n {
            lemma_treasury_gain_mono(b, a, prices, k, n - 1);
        } else {
            lemma_treasury_gain_mono(b, a, prices, k - 1, n - 1);
        }
    }
}

/// Whether the holdings sums of a snapshot fit their types.
pub open spec fn holdings_fit(s: ProtocolSnapshot, prices: Seq<u128>) -> bool {
    &&& forall|j: int, i: int|
        0 <= j < s.users() && 0 <= i < prices.len() && prices[i] != 0 ==> i128::MIN <= #[trigger] (
        s.under(j, i) + s.coll(j, i)) <= i128::MAX
    &&& users_value(s, prices, s.users() as int) <= u128::MAX
}

fn row_value_exec(s: &ProtocolSnapshot, j: usize, prices: &Vec<u128>) -> (v: u128)
    requires
        s.shaped(),
        j < s.users(),
        prices@.len() == s.assets(),
        forall|i: int|
            0 <= i < prices@.len() && prices@[i] != 0 ==> i128::MIN <= #[trigger] (s.under(j as int, i)
                + s.coll(j as int, i)) <= i128::MAX,
        row_value(*s, j as int, prices@, prices@.len() as int) <= u128::MAX,
    ensures
        v == row_value(*s, j as int, prices@, prices@.len() as int),
{
    let mut total: u128 = 0;
    let mut i: usize = 0;
    while i < prices.len()
        invariant
            s.shaped(),
            j < s.users(),
            prices@.len() == s.assets(),
            forall|k: int|
                0 <= k < prices@.len() && prices@[k] != 0 ==> i128::MIN <= #[trigger] (s.under(
                    j as int,
                    k,
                ) + s.coll(j as int, k)) <= i128::MAX,
            row_value(*s, j as int, prices@, prices@.len() as int) <= u128::MAX,
            i <= prices@.len(),
            total == row_value(*s, j as int, prices@, i as int),
        decreases prices@.len() - i,
    {
        let price = prices[i];
        if price != 0 {
            proof {
                lemma_row_value_mono(*s, j as int, prices@, i + 1, prices@.len() as int);
                assert(i128::MIN <= s.under(j as int, i as int) + s.coll(j as int, i as int) <= i128::MAX);
            }
            let held = (s.user_underlying[j][i] + s.user_collateral[j][i]) as u128;
            let value = held.saturating_sub(s.user_debt[j][i] as u128);
            total = total + value * price;
        }
        i = i + 1;
    }
    total
}

fn users_value_exec(s: &ProtocolSnapshot, prices: &Vec<u128>) -> (v: u128)
    requires
        s.shaped(),
        prices@.len() == s.assets(),
        holdings_fit(*s, prices@),
    ensures
        v == users_value(*s, prices@, s.users() as int),
{
    let m = s.user_collateral.len();
    let mut total: u128 = 0;
    let mut j: usize = 0;
    while j < m
        invariant
            s.shaped(),
            prices@.len() == s.assets(),
            holdings_fit(*s, prices@),
            m == s.users(),
            j <= m,
            total == users_value(*s, prices@, j as int),
        decreases m - j,
    {
        proof {
            lemma_users_value_mono(*s, prices@, j + 1, m as int);
            lemma_row_value_mono(*s, j as int, prices@, 0, prices@.len() as int);
            assert forall|i: int|
                0 <= i < prices@.len() && prices@[i] != 0 implies i128::MIN <= #[trigger] (s.under(
                j as int,
                i,
            ) + s.coll(j as int, i)) <= i128::MAX by {
                assert(i128::MIN <= (s.under(j as int, i) + s.coll(j as int, i)) <= i128::MAX);
            }
        }
        let row = row_value_exec(s, j, prices);
        total = total + row;
        j = j + 1;
    }
    total
}

/// Check that an admin operation stole nothing: when the users' total net
/// holdings (underlying plus collateral less debt, valued at price) fell,
/// the treasury's valued gain is at most that loss plus 10% and dust.
pub fn verify_admin_cannot_steal(before: &ProtocolSnapshot, after: &ProtocolSnapshot, prices: &Vec<u128>) -> (ok: bool)
    requires
        comparable(*before, *after),
        prices@.len() == before.assets(),
        holdings_fit(*before, prices@),
        holdings_fit(*after, prices@),
        forall|i: int|
            0 <= i < prices@.len() && prices@[i] != 0 ==> i128::MIN
                <= #[trigger] after.treasury_balances@[i] - before.treasury_balances@[i] <= i128::MAX,
        treasury_gain(*before, *after, prices@, prices@.len() as int) <= u128::MAX,
        users_value(*after, prices@, before.users() as int) < users_value(
            *before,
            prices@,
            before.users() as int,
        ) ==> {
            let loss = users_value(*before, prices@, before.users() as int) - users_value(
                *after,
                prices@,
                before.users() as int,
            );
            loss + (loss / 10 + 10_000_000) <= u128::MAX
        },
    ensures
        ok == admin_did_not_steal(*before, *after, prices@),
{
    let total_before = users_value_exec(before, prices);
    let total_after = users_value_exec(after, prices);
    let mut gain: u128 = 0;
    let mut i: usize = 0;
    while i < prices.len()
        invariant
            comparable(*before, *after),
            prices@.len() == before.assets(),
            forall|k: int|
                0 <= k < prices@.len() && prices@[k] != 0 ==> i128::MIN
                    <= #[trigger] after.treasury_balances@[k] - before.treasury_balances@[k]
                    <= i128::MAX,
            treasury_gain(*before, *after, prices@, prices@.len() as int) <= u128::MAX,
            i <= prices@.len(),
            gain == treasury_gain(*before, *after, prices@, i as int),
        decreases prices@.len() - i,
    {
        let price = prices[i];
        if price != 0 {
            proof {
                lemma_treasury_gain_mono(*before, *after, prices@, i + 1, prices@.len() as int);
                assert(i128::MIN <= after.treasury_balances@[i as int] - before.treasury_balances@[i as int]
                    <= i128::MAX);
            }
            let delta = (after.treasury_balances[i] - before.treasury_balances[i]) as u128;
            gain = gain + delta * price;
        }
        i = i + 1;
    }
    if total_after < total_before {
        let user_loss = total_before - total_after;
        let tolerance = user_loss / 10 + 10_000_000;
        gain <= user_loss + tolerance
    } else {
        true
    }
}

// ---------------------------------------------------------------------------
// Fee calculation
// ---------------------------------------------------------------------------

/// The treasury's share of interest accrued on asset `i`: the reserve
/// factor's share of the debt growth, within 10% (and up to twice the upper
/// bound), whenever that share exceeds 1000.
pub open spec fn fee_share_sound(
    b: ProtocolSnapshot,
    a: ProtocolSnapshot,
    i: int,
    reserve: Option<ReserveReading>,
) -> bool {
    match reserve {
        Some(r) => {
            let reserve_factor = r.reserve_factor as int;
            let debt_before = (b.total_debt@[i] as u128) as int;
            let debt_after = (a.total_debt@[i] as u128) as int;
            (b.total_debt@[i] > 0 && a.timestamp > b.timestamp && reserve_factor > 0 && debt_after
                > debt_before) ==> {
                let expected = (debt_after - debt_before) * reserve_factor / 10000;
                let actual = ((a.treasury_balances@[i] - b.treasury_balances@[i]) as u128) as int;
                let min_expected = expected - expected / 10;
                let max_expected = if expected + (expected / 10 + 1000) > u128::MAX {
                    u128::MAX as int
                } else {
                    expected + (expected / 10 + 1000)
                };
                expected > 1000 ==> min_expected <= actual <= max_expected * 2
            }
        },
        None => true,
    }
}

/// Whether the fee arithmetic of asset `i` fits its types.
pub open spec fn fee_fits(b: ProtocolSnapshot, a: ProtocolSnapshot, i: int, reserve: Option<ReserveReading>) -> bool {
    match reserve {
        Some(r) => {
            let reserve_factor = r.reserve_factor as int;
            let debt_before = (b.total_debt@[i] as u128) as int;
            let debt_after = (a.total_debt@[i] as u128) as int;
            (b.total_debt@[i] > 0 && a.timestamp > b.timestamp && reserve_factor > 0 && debt_after
                > debt_before) ==> {
                let expected = (debt_after - debt_before) * reserve_factor / 10000;
                let max_expected = if expected + (expected / 10 + 1000) > u128::MAX {
                    u128::MAX as int
                } else {
                    expected + (expected / 10 + 1000)
                };
                &&& (debt_after - debt_before) * reserve_factor <= u128::MAX
                &&& i128::MIN <= a.treasury_balances@[i] - b.treasury_balances@[i] <= i128::MAX
                &&& expected > 1000 ==> max_expected * 2 <= u128::MAX
            }
        },
        None => true,
    }
}

/// Check, for every readable reserve with a positive reserve factor whose
/// debt grew while time passed, that the treasury received the factor's
/// share of the interest (within the tolerances).
pub fn verify_fee_calculation_invariants(
    before: &ProtocolSnapshot,
    after: &ProtocolSnapshot,
    reserves: &Vec<Option<ReserveReading>>,
) -> (ok: bool)
    requires
        comparable(*before, *after),
        reserves@.len() == before.assets(),
        forall|i: int| 0 <= i < reserves@.len() ==> #[trigger] fee_fits(*before, *after, i, reserves@[i]),
    ensures
        ok == (forall|i: int|
            0 <= i < reserves@.len() ==> #[trigger] fee_share_sound(*before, *after, i, reserves@[i])),
{
    let time_delta = after.timestamp.saturating_sub(before.timestamp);
    let mut i: usize = 0;
    while i < reserves.len()
        invariant
            comparable(*before, *after),
            reserves@.len() == before.assets(),
            time_delta == (if after.timestamp > before.timestamp {
                after.timestamp - before.timestamp
            } else {
                0
            }),
            forall|k: int| 0 <= k < reserves@.len() ==> #[trigger] fee_fits(*before, *after, k, reserves@[k]),
            i <= reserves@.len(),
            forall|k: int| 0 <= k < i ==> #[trigger] fee_share_sound(*before, *after, k, reserves@[k]),
        decreases reserves@.len() - i,
    {
        assert(fee_fits(*before, *after, i as int, reserves@[i as int]));
        match reserves[i] {
            Some(r) => {
                let reserve_factor = r.reserve_factor;
                if before.total_debt[i] > 0 && time_delta > 0 && reserve_factor > 0 {
                    let debt_before = before.total_debt[i] as u128;
                    let debt_after = after.total_debt[i] as u128;
                    if debt_after > debt_before {
                        let interest_accrued = debt_after - debt_before;
                        let expected = (interest_accrued * reserve_factor) / 10000;
                        let actual = (after.treasury_balances[i] - before.treasury_balances[i]) as u128;
                        let min_expected = expected.saturating_sub(expected / 10);
                        let max_expected = expected.saturating_add(expected / 10 + 1000);
                        if expected > 1000 && !(actual >= min_expected && actual <= max_expected * 2) {
                            assert(!fee_share_sound(*before, *after, i as int, reserves@[i as int]));
                            return false;
                        }
                    }
                }
            },
            None => {},
        }
        assert(fee_share_sound(*before, *after, i as int, reserves@[i as int]));
        i = i + 1;
    }
    true
}

} // verus!
