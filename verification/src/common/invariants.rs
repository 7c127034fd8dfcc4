//! Protocol invariant checks of the multi-asset fuzzer, on snapshots and on
//! what the router reported.  Each check returns whether the invariant holds
//! (the fuzz target fails the run when it does not).
use vstd::prelude::*;
use crate::common::constants::{
    BASIS_POINTS, DEFAULT_LIQUIDATION_CLOSE_FACTOR, FLASH_LOAN_PREMIUM_BPS, MAX_CUMULATIVE_ROUNDING,
    MAX_ROUNDING_PER_OP, RAY, SECONDS_PER_YEAR, WAD, ZERO_PRICE,
};
use crate::common::operations::{FlashLoanReceiverType, Operation};
use crate::common::snapshot::{ProtocolSnapshot, ReserveReading};

verus! {

/// Rust's `/` on a signed dividend and a positive divisor (rounding toward
/// zero).
pub open spec fn tdiv(x: int, d: int) -> int {
    if x >= 0 {
        x / d
    } else {
        -((-x) / d)
    }
}

/// `x - y` for i128, saturating at the type's bounds.
pub open spec fn sat_sub_i128(x: int, y: int) -> int {
    if x - y > i128::MAX {
        i128::MAX as int
    } else if x - y < i128::MIN {
        i128::MIN as int
    } else {
        x - y
    }
}

/// The entry an index picks among `n`: the index modulo `n`.
pub open spec fn pick(idx: u8, n: int) -> int {
    (idx as int) % n
}

/// Two snapshots of the same assets and users.
pub open spec fn comparable(b: ProtocolSnapshot, a: ProtocolSnapshot) -> bool {
    &&& b.shaped()
    &&& a.shaped()
    &&& a.assets() == b.assets()
    &&& a.users() == b.users()
}

/// Whether some entry of a row is positive.
pub open spec fn any_positive(row: Seq<i128>) -> bool {
    exists|k: int| 0 <= k < row.len() && #[trigger] row[k] > 0
}

/// Whether some entry of a row is positive.
pub fn has_positive(row: &Vec<i128>) -> (r: bool)
    ensures
        r == any_positive(row@),
{
    let mut k: usize = 0;
    while k < row.len()
        invariant
            k <= row@.len(),
            forall|l: int| 0 <= l < k ==> row@[l] <= 0,
        decreases row@.len() - k,
    {
        if row[k] > 0 {
            return true;
        }
        k = k + 1;
    }
    false
}

// ---------------------------------------------------------------------------
// Operation invariants
// ---------------------------------------------------------------------------

/// The checks after a successful withdrawal: the user's underlying grew,
/// their collateral shrank, and a user still in debt is not left
/// liquidatable (where their health factor could be read).
pub open spec fn withdraw_holds(
    b: ProtocolSnapshot,
    a: ProtocolSnapshot,
    j: int,
    i: int,
    account_hf: Option<u128>,
) -> bool {
    &&& a.under(j, i) >= b.under(j, i)
    &&& a.coll(j, i) <= b.coll(j, i)
    &&& any_positive(a.user_debt@[j]@) ==> match account_hf {
        Some(hf) => hf >= WAD,
        None => true,
    }
}

/// The checks after a successful liquidation: the user's debt and collateral
/// shrank, and the debt covered stays within the close factor plus 1%.
pub open spec fn liquidation_holds(b: ProtocolSnapshot, a: ProtocolSnapshot, j: int, ci: int, di: int) -> bool {
    &&& a.debt(j, di) <= b.debt(j, di)
    &&& a.coll(j, ci) <= b.coll(j, ci)
    &&& {
        let max_liquidatable = b.debt(j, di) * DEFAULT_LIQUIDATION_CLOSE_FACTOR / (BASIS_POINTS as int);
        b.debt(j, di) - a.debt(j, di) <= max_liquidatable + max_liquidatable / 100
    }
}

/// Whether the arithmetic of the liquidation check fits its types.
pub open spec fn liquidation_fits(b: ProtocolSnapshot, a: ProtocolSnapshot, j: int, ci: int, di: int) -> bool {
    (a.debt(j, di) <= b.debt(j, di) && a.coll(j, ci) <= b.coll(j, ci)) ==> {
        &&& b.debt(j, di) - a.debt(j, di) <= i128::MAX
        &&& b.debt(j, di) >= 0
        &&& b.debt(j, di) * DEFAULT_LIQUIDATION_CLOSE_FACTOR <= u128::MAX
    }
}

/// A user's underlying plus collateral of one asset.
pub open spec fn holdings(s: ProtocolSnapshot, j: int, i: int) -> int {
    s.under(j, i) + s.coll(j, i)
}

/// Rapid supply and withdraw leave the user at most 1% (at least 1000)
/// better off.
pub open spec fn rapid_holds(b: ProtocolSnapshot, a: ProtocolSnapshot, j: int, i: int) -> bool {
    let before_total = holdings(b, j, i);
    let max_gain = if tdiv(before_total, 100) > 1000 {
        tdiv(before_total, 100)
    } else {
        1000
    };
    holdings(a, j, i) <= before_total + max_gain
}

/// Whether the arithmetic of the rapid supply/withdraw check fits i128.
pub open spec fn rapid_fits(b: ProtocolSnapshot, a: ProtocolSnapshot, j: int, i: int) -> bool {
    let before_total = holdings(b, j, i);
    let max_gain = if tdiv(before_total, 100) > 1000 {
        tdiv(before_total, 100)
    } else {
        1000
    };
    &&& i128::MIN <= before_total <= i128::MAX
    &&& i128::MIN <= holdings(a, j, i) <= i128::MAX
    &&& before_total + max_gain <= i128::MAX
}

/// The attacker's gain in a first-depositor attack.
pub open spec fn attacker_gain(b: ProtocolSnapshot, a: ProtocolSnapshot, aj: int, i: int) -> int {
    sat_sub_i128(holdings(a, aj, i), holdings(b, aj, i))
}

/// The victim's loss in a first-depositor attack.
pub open spec fn victim_loss(b: ProtocolSnapshot, a: ProtocolSnapshot, vj: int, i: int) -> int {
    sat_sub_i128(holdings(b, vj, i), holdings(a, vj, i))
}

/// What the victim deposited in a first-depositor attack.
pub open spec fn victim_deposit(b: ProtocolSnapshot, a: ProtocolSnapshot, vj: int, i: int) -> int {
    sat_sub_i128(b.under(vj, i), a.under(vj, i))
}

/// The attacker gains no more than the victim loses (plus 10%, at least
/// 1000), and a victim who deposited got at least 99% of it in shares.
pub open spec fn first_depositor_holds(b: ProtocolSnapshot, a: ProtocolSnapshot, aj: int, vj: int, i: int) -> bool {
    let gain = attacker_gain(b, a, aj, i);
    let loss = victim_loss(b, a, vj, i);
    let deposit = victim_deposit(b, a, vj, i);
    &&& (gain > 0 && loss > 0) ==> gain <= loss + (if loss / 10 > 1000 {
        loss / 10
    } else {
        1000
    })
    &&& deposit > 0 ==> a.coll(vj, i) - b.coll(vj, i) >= deposit * 99 / 100
}

/// Whether the arithmetic of the first-depositor check fits its types.
pub open spec fn first_depositor_fits(b: ProtocolSnapshot, a: ProtocolSnapshot, aj: int, vj: int, i: int) -> bool {
    let gain = attacker_gain(b, a, aj, i);
    let loss = victim_loss(b, a, vj, i);
    let deposit = victim_deposit(b, a, vj, i);
    &&& i128::MIN <= holdings(b, aj, i) <= i128::MAX
    &&& i128::MIN <= holdings(a, aj, i) <= i128::MAX
    &&& i128::MIN <= holdings(b, vj, i) <= i128::MAX
    &&& i128::MIN <= holdings(a, vj, i) <= i128::MAX
    &&& (gain > 0 && loss > 0) ==> loss + (if loss / 10 > 1000 {
        loss / 10
    } else {
        1000
    }) <= i128::MAX
    &&& (!(gain > 0 && loss > 0) || gain <= loss + (if loss / 10 > 1000 {
        loss / 10
    } else {
        1000
    })) ==> (deposit > 0 ==> {
        &&& deposit * 99 <= u128::MAX
        &&& i128::MIN <= a.coll(vj, i) - b.coll(vj, i) <= i128::MAX
    })
}

/// Whether an operation's check picks users and assets by index.
pub open spec fn indexes_state(op: Operation, success: bool) -> bool {
    match op {
        Operation::TimeWarp { .. } => false,
        Operation::PriceToZero { .. } => true,
        Operation::RapidSupplyWithdraw { .. } => true,
        Operation::Supply { .. } => success,
        Operation::Withdraw { .. } => success,
        Operation::WithdrawAll { .. } => success,
        Operation::Borrow { .. } => success,
        Operation::Repay { .. } => success,
        Operation::RepayAll { .. } => success,
        Operation::Liquidate { .. } => success,
        Operation::MultiAssetLiquidation { .. } => success,
        Operation::FlashLoan { .. } => success,
        Operation::DustSupply { .. } => success,
        Operation::DustBorrow { .. } => success,
        Operation::FirstDepositorAttack { .. } => success,
        Operation::DonationAttack { .. } => success,
        _ => false,
    }
}

/// The checks that follow an operation: what a successful supply, withdraw,
/// borrow, repay, liquidation, flash loan or dust operation must have done to
/// the user's balances; time never goes back; a price set to zero is zero;
/// rapid supply and withdraw extract no value; a first-depositor attack does
/// not profit at the victim's expense; a donation leaves the aToken supply
/// alone.  Users and assets are picked by index modulo their number.
pub open spec fn operation_invariants_hold(
    op: Operation,
    b: ProtocolSnapshot,
    a: ProtocolSnapshot,
    success: bool,
    account_hf: Option<u128>,
    prices: Seq<u128>,
) -> bool {
    let n = b.assets() as int;
    let m = b.users() as int;
    match op {
        Operation::Supply { user_idx, asset_idx, .. } => success ==> {
            let i = pick(asset_idx, n);
            let j = pick(user_idx, m);
            &&& a.under(j, i) <= b.under(j, i)
            &&& a.coll(j, i) >= b.coll(j, i)
            &&& a.total_supply@[i] >= b.total_supply@[i]
        },
        Operation::Withdraw { user_idx, asset_idx, .. } => success ==> withdraw_holds(
            b,
            a,
            pick(user_idx, m),
            pick(asset_idx, n),
            account_hf,
        ),
        Operation::WithdrawAll { user_idx, asset_idx } => success ==> withdraw_holds(
            b,
            a,
            pick(user_idx, m),
            pick(asset_idx, n),
            account_hf,
        ),
        Operation::Borrow { user_idx, asset_idx, .. } => success ==> {
            let i = pick(asset_idx, n);
            let j = pick(user_idx, m);
            &&& a.under(j, i) >= b.under(j, i)
            &&& a.debt(j, i) >= b.debt(j, i)
            &&& a.total_debt@[i] >= b.total_debt@[i]
            &&& match account_hf {
                Some(hf) => hf >= WAD,
                None => true,
            }
        },
        Operation::Repay { user_idx, asset_idx, .. } => success ==> {
            let i = pick(asset_idx, n);
            let j = pick(user_idx, m);
            a.under(j, i) <= b.under(j, i) && a.debt(j, i) <= b.debt(j, i)
        },
        Operation::RepayAll { user_idx, asset_idx } => success ==> {
            let i = pick(asset_idx, n);
            let j = pick(user_idx, m);
            a.under(j, i) <= b.under(j, i) && a.debt(j, i) <= b.debt(j, i)
        },
        Operation::TimeWarp { .. } => a.timestamp >= b.timestamp,
        Operation::Liquidate { user_idx, collateral_idx, debt_idx, .. } => success
            ==> liquidation_holds(b, a, pick(user_idx, m), pick(collateral_idx, n), pick(debt_idx, n)),
        Operation::MultiAssetLiquidation { user_idx, collateral_idx, debt_idx, .. } => success
            ==> liquidation_holds(b, a, pick(user_idx, m), pick(collateral_idx, n), pick(debt_idx, n)),
        Operation::FlashLoan { asset_idx, receiver_type, .. } => (success && receiver_type
            == FlashLoanReceiverType::Standard) ==> a.treasury_balances@[pick(asset_idx, n)]
            >= b.treasury_balances@[pick(asset_idx, n)],
        Operation::DustSupply { user_idx, asset_idx, .. } => success ==> a.coll(
            pick(user_idx, m),
            pick(asset_idx, n),
        ) >= b.coll(pick(user_idx, m), pick(asset_idx, n)),
        Operation::DustBorrow { user_idx, asset_idx, .. } => success ==> a.debt(
            pick(user_idx, m),
            pick(asset_idx, n),
        ) >= b.debt(pick(user_idx, m), pick(asset_idx, n)),
        Operation::PriceToZero { asset_idx } => prices[pick(asset_idx, n)] == ZERO_PRICE,
        Operation::RapidSupplyWithdraw { user_idx, asset_idx, .. } => rapid_holds(
            b,
            a,
            pick(user_idx, m),
            pick(asset_idx, n),
        ),
        Operation::FirstDepositorAttack { attacker_idx, victim_idx, asset_idx } => success
            ==> first_depositor_holds(b, a, pick(attacker_idx, m), pick(victim_idx, m), pick(asset_idx, n)),
        Operation::DonationAttack { asset_idx, .. } => success ==> a.total_supply@[pick(asset_idx, n)]
            == b.total_supply@[pick(asset_idx, n)],
        _ => true,
    }
}

/// Whether the arithmetic of the operation checks fits its types.
pub open spec fn operation_checks_fit(op: Operation, b: ProtocolSnapshot, a: ProtocolSnapshot, success: bool) -> bool {
    let n = b.assets() as int;
    let m = b.users() as int;
    match op {
        Operation::Liquidate { user_idx, collateral_idx, debt_idx, .. } => success
            ==> liquidation_fits(b, a, pick(user_idx, m), pick(collateral_idx, n), pick(debt_idx, n)),
        Operation::MultiAssetLiquidation { user_idx, collateral_idx, debt_idx, .. } => success
            ==> liquidation_fits(b, a, pick(user_idx, m), pick(collateral_idx, n), pick(debt_idx, n)),
        Operation::RapidSupplyWithdraw { user_idx, asset_idx, .. } => rapid_fits(
            b,
            a,
            pick(user_idx, m),
            pick(asset_idx, n),
        ),
        Operation::FirstDepositorAttack { attacker_idx, victim_idx, asset_idx } => success
            ==> first_depositor_fits(b, a, pick(attacker_idx, m), pick(victim_idx, m), pick(asset_idx, n)),
        _ => true,
    }
}

fn sat_sub(x: i128, y: i128) -> (r: i128)
    ensures
        r == sat_sub_i128(x as int, y as int),
{
    match x.checked_sub(y) {
        Some(d) => d,
        None => if y < 0 {
            i128::MAX
        } else {
            i128::MIN
        },
    }
}

fn check_withdraw(
    before: &ProtocolSnapshot,
    after: &ProtocolSnapshot,
    j: usize,
    i: usize,
    account_hf: Option<u128>,
) -> (ok: bool)
    requires
        comparable(*before, *after),
        j < before.users(),
        i < before.assets(),
    ensures
        ok == withdraw_holds(*before, *after, j as int, i as int, account_hf),
{
    if after.user_underlying[j][i] < before.user_underlying[j][i] {
        return false;
    }
    if after.user_collateral[j][i] > before.user_collateral[j][i] {
        return false;
    }
    if has_positive(&after.user_debt[j]) {
        match account_hf {
            Some(hf) => hf >= WAD,
            None => true,
        }
    } else {
        true
    }
}

fn check_liquidation(before: &ProtocolSnapshot, after: &ProtocolSnapshot, j: usize, ci: usize, di: usize) -> (ok: bool)
    requires
        comparable(*before, *after),
        j < before.users(),
        ci < before.assets(),
        di < before.assets(),
        liquidation_fits(*before, *after, j as int, ci as int, di as int),
    ensures
        ok == liquidation_holds(*before, *after, j as int, ci as int, di as int),
{
    let debt_before = before.user_debt[j][di];
    let debt_after = after.user_debt[j][di];
    if debt_after > debt_before || after.user_collateral[j][ci] > before.user_collateral[j][ci] {
        return false;
    }
    let debt_covered = (debt_before - debt_after) as u128;
    let max_liquidatable = (debt_before as u128 * DEFAULT_LIQUIDATION_CLOSE_FACTOR) / (BASIS_POINTS as u128);
    let tolerance = max_liquidatable / 100;
    debt_covered <= max_liquidatable + tolerance
}

fn check_rapid(before: &ProtocolSnapshot, after: &ProtocolSnapshot, j: usize, i: usize) -> (ok: bool)
    requires
        comparable(*before, *after),
        j < before.users(),
        i < before.assets(),
        rapid_fits(*before, *after, j as int, i as int),
    ensures
        ok == rapid_holds(*before, *after, j as int, i as int),
{
    let before_total = before.user_underlying[j][i] + before.user_collateral[j][i];
    let after_total = after.user_underlying[j][i] + after.user_collateral[j][i];
    let tenth = before_total / 100;
    let max_gain = if tenth > 1000 {
        tenth
    } else {
        1000
    };
    after_total <= before_total + max_gain
}

fn check_first_depositor(before: &ProtocolSnapshot, after: &ProtocolSnapshot, aj: usize, vj: usize, i: usize) -> (ok: bool)
    requires
        comparable(*before, *after),
        aj < before.users(),
        vj < before.users(),
        i < before.assets(),
        first_depositor_fits(*before, *after, aj as int, vj as int, i as int),
    ensures
        ok == first_depositor_holds(*before, *after, aj as int, vj as int, i as int),
{
    let attacker_before = before.user_underlying[aj][i] + before.user_collateral[aj][i];
    let attacker_after = after.user_underlying[aj][i] + after.user_collateral[aj][i];
    let victim_before = before.user_underlying[vj][i] + before.user_collateral[vj][i];
    let victim_after = after.user_underlying[vj][i] + after.user_collateral[vj][i];
    let gain = sat_sub(attacker_after, attacker_before);
    let loss = sat_sub(victim_before, victim_after);
    if gain > 0 && loss > 0 {
        let tenth = loss / 10;
        let tolerance = if tenth > 1000 {
            tenth
        } else {
            1000
        };
        if gain > loss + tolerance {
            return false;
        }
    }
    let deposit = sat_sub(before.user_underlying[vj][i], after.user_underlying[vj][i]);
    if deposit > 0 {
        let shares = after.user_collateral[vj][i] - before.user_collateral[vj][i];
        let expected_shares_min = (deposit as u128 * 99 / 100) as i128;
        shares >= expected_shares_min
    } else {
        true
    }
}

/// What a successful balance operation must have done to the acting user's
/// own row (user and asset taken by index modulo their numbers), and
/// nothing more: a supply keeps or lowers the wallet and keeps or raises the
/// collateral and the total supply; a borrow keeps or raises the wallet, the
/// debt and the total debt and, where the health factor was read, leaves it
/// at 1 or more; a repayment (partial or full) keeps or lowers both the
/// wallet and the debt; a dust supply keeps or raises the collateral and a
/// dust borrow the debt.  An operation of these kinds that failed passes.
pub proof fn lemma_balance_operation_checks(
    op: Operation,
    b: ProtocolSnapshot,
    a: ProtocolSnapshot,
    account_hf: Option<u128>,
    prices: Seq<u128>,
)
    ensures
        op matches Operation::Supply { user_idx, asset_idx, .. } ==> (operation_invariants_hold(
            op,
            b,
            a,
            true,
            account_hf,
            prices,
        ) <==> ({
            let j = (user_idx as int) % (b.users() as int);
            let i = (asset_idx as int) % (b.assets() as int);
            &&& a.user_underlying@[j]@[i] <= b.user_underlying@[j]@[i]
            &&& a.user_collateral@[j]@[i] >= b.user_collateral@[j]@[i]
            &&& a.total_supply@[i] >= b.total_supply@[i]
        })),
        op matches Operation::Borrow { user_idx, asset_idx, .. } ==> (operation_invariants_hold(
            op,
            b,
            a,
            true,
            account_hf,
            prices,
        ) <==> ({
            let j = (user_idx as int) % (b.users() as int);
            let i = (asset_idx as int) % (b.assets() as int);
            &&& a.user_underlying@[j]@[i] >= b.user_underlying@[j]@[i]
            &&& a.user_debt@[j]@[i] >= b.user_debt@[j]@[i]
            &&& a.total_debt@[i] >= b.total_debt@[i]
            &&& (account_hf matches Some(hf) ==> hf >= WAD)
        })),
        op matches Operation::Repay { user_idx, asset_idx, .. } ==> (operation_invariants_hold(
            op,
            b,
            a,
            true,
            account_hf,
            prices,
        ) <==> ({
            let j = (user_idx as int) % (b.users() as int);
            let i = (asset_idx as int) % (b.assets() as int);
            &&& a.user_underlying@[j]@[i] <= b.user_underlying@[j]@[i]
            &&& a.user_debt@[j]@[i] <= b.user_debt@[j]@[i]
        })),
        op matches Operation::RepayAll { user_idx, asset_idx } ==> (operation_invariants_hold(
            op,
            b,
            a,
            true,
            account_hf,
            prices,
        ) <==> ({
            let j = (user_idx as int) % (b.users() as int);
            let i = (asset_idx as int) % (b.assets() as int);
            &&& a.user_underlying@[j]@[i] <= b.user_underlying@[j]@[i]
            &&& a.user_debt@[j]@[i] <= b.user_debt@[j]@[i]
        })),
        op matches Operation::DustSupply { user_idx, asset_idx, .. } ==> (operation_invariants_hold(
            op,
            b,
            a,
            true,
            account_hf,
            prices,
        ) <==> a.user_collateral@[(user_idx as int) % (b.users() as int)]@[(asset_idx as int) % (
        b.assets() as int)] >= b.user_collateral@[(user_idx as int) % (b.users() as int)]@[(asset_idx
            as int) % (b.assets() as int)]),
        op matches Operation::DustBorrow { user_idx, asset_idx, .. } ==> (operation_invariants_hold(
            op,
            b,
            a,
            true,
            account_hf,
            prices,
        ) <==> a.user_debt@[(user_idx as int) % (b.users() as int)]@[(asset_idx as int) % (
        b.assets() as int)] >= b.user_debt@[(user_idx as int) % (b.users() as int)]@[(asset_idx
            as int) % (b.assets() as int)]),
        (op is Supply || op is Borrow || op is Repay || op is RepayAll || op is DustSupply
            || op is DustBorrow) ==> operation_invariants_hold(op, b, a, false, account_hf, prices),
{
}

/// The other per-operation checks, read off the snapshots (users and assets
/// by index modulo their numbers):
/// - a successful withdrawal passes exactly when the wallet kept or grew,
///   the collateral kept or shrank, and a user still owing something has
///   not been read below a health factor of 1;
/// - a time warp passes exactly when time did not go back;
/// - a price set to zero passes exactly when the price now held is zero;
/// - a successful donation passes exactly when the total supply of the
///   asset is unchanged;
/// - a successful flash loan through the standard receiver passes exactly
///   when the treasury did not lose;
/// - a successful liquidation that raised the user's debt or collateral
///   fails, and one that repaid at most half the (non-negative) debt while
///   not raising the collateral passes;
/// - rapid supply and withdraw that leaves the user no better off passes.
pub proof fn lemma_other_operation_checks(
    op: Operation,
    b: ProtocolSnapshot,
    a: ProtocolSnapshot,
    success: bool,
    account_hf: Option<u128>,
    prices: Seq<u128>,
)
    ensures
        op matches Operation::Withdraw { user_idx, asset_idx, .. } ==> ({
            let j = (user_idx as int) % (b.users() as int);
            let i = (asset_idx as int) % (b.assets() as int);
            operation_invariants_hold(op, b, a, true, account_hf, prices) <==> {
                &&& a.user_underlying@[j]@[i] >= b.user_underlying@[j]@[i]
                &&& a.user_collateral@[j]@[i] <= b.user_collateral@[j]@[i]
                &&& (exists|k: int| 0 <= k < a.user_debt@[j]@.len() && #[trigger] a.user_debt@[j]@[k] > 0)
                    ==> (account_hf matches Some(hf) ==> hf >= WAD)
            }
        }),
        op matches Operation::WithdrawAll { user_idx, asset_idx } ==> ({
            let j = (user_idx as int) % (b.users() as int);
            let i = (asset_idx as int) % (b.assets() as int);
            operation_invariants_hold(op, b, a, true, account_hf, prices) <==> {
                &&& a.user_underlying@[j]@[i] >= b.user_underlying@[j]@[i]
                &&& a.user_collateral@[j]@[i] <= b.user_collateral@[j]@[i]
                &&& (exists|k: int| 0 <= k < a.user_debt@[j]@.len() && #[trigger] a.user_debt@[j]@[k] > 0)
                    ==> (account_hf matches Some(hf) ==> hf >= WAD)
            }
        }),
        op is TimeWarp ==> (operation_invariants_hold(op, b, a, success, account_hf, prices)
            <==> a.timestamp >= b.timestamp),
        op matches Operation::PriceToZero { asset_idx } ==> (operation_invariants_hold(
            op,
            b,
            a,
            success,
            account_hf,
            prices,
        ) <==> prices[(asset_idx as int) % (b.assets() as int)] == 0),
        op matches Operation::DonationAttack { asset_idx, .. } ==> (operation_invariants_hold(
            op,
            b,
            a,
            true,
            account_hf,
            prices,
        ) <==> a.total_supply@[(asset_idx as int) % (b.assets() as int)] == b.total_supply@[(
        asset_idx as int) % (b.assets() as int)]),
        op matches Operation::FlashLoan { asset_idx, receiver_type, .. } ==> (receiver_type
            == FlashLoanReceiverType::Standard ==> (operation_invariants_hold(
            op,
            b,
            a,
            true,
            account_hf,
            prices,
        ) <==> a.treasury_balances@[(asset_idx as int) % (b.assets() as int)]
            >= b.treasury_balances@[(asset_idx as int) % (b.assets() as int)])),
        op matches Operation::Liquidate { user_idx, collateral_idx, debt_idx, .. } ==> ({
            let j = (user_idx as int) % (b.users() as int);
            let ci = (collateral_idx as int) % (b.assets() as int);
            let di = (debt_idx as int) % (b.assets() as int);
            &&& (a.user_debt@[j]@[di] > b.user_debt@[j]@[di] || a.user_collateral@[j]@[ci]
                > b.user_collateral@[j]@[ci]) ==> !operation_invariants_hold(op, b, a, true, account_hf, prices)
            &&& (b.user_debt@[j]@[di] >= 0 && a.user_debt@[j]@[di] <= b.user_debt@[j]@[di] && 2 * (
            b.user_debt@[j]@[di] - a.user_debt@[j]@[di]) <= b.user_debt@[j]@[di]
                && a.user_collateral@[j]@[ci] <= b.user_collateral@[j]@[ci])
                ==> operation_invariants_hold(op, b, a, true, account_hf, prices)
        }),
        op matches Operation::RapidSupplyWithdraw { user_idx, asset_idx, .. } ==> ({
            let j = (user_idx as int) % (b.users() as int);
            let i = (asset_idx as int) % (b.assets() as int);
            a.user_underlying@[j]@[i] + a.user_collateral@[j]@[i] <= b.user_underlying@[j]@[i]
                + b.user_collateral@[j]@[i] ==> operation_invariants_hold(op, b, a, success, account_hf, prices)
        }),
{
    if let Operation::Liquidate { user_idx, collateral_idx, debt_idx, .. } = op {
        let j = (user_idx as int) % (b.users() as int);
        let di = (debt_idx as int) % (b.assets() as int);
        let d = b.debt(j, di);
        let covered = b.debt(j, di) - a.debt(j, di);
        if d >= 0 && 2 * covered <= d {
            let m = d * DEFAULT_LIQUIDATION_CLOSE_FACTOR / (BASIS_POINTS as int);
            assert(d * 5000 / 10000 == d / 2) by (nonlinear_arith)
                requires
                    d >= 0,
            ;
            assert(covered <= d / 2);
            assert(m >= 0);
        }
    }
    if let Operation::RapidSupplyWithdraw { user_idx, asset_idx, .. } = op {
        let j = (user_idx as int) % (b.users() as int);
        let i = (asset_idx as int) % (b.assets() as int);
        let bt = holdings(b, j, i);
        assert((if tdiv(bt, 100) > 1000 { tdiv(bt, 100) } else { 1000 }) > 0);
    }
    match op {
        Operation::Withdraw { user_idx, .. } | Operation::WithdrawAll { user_idx, .. } => {
            let j = (user_idx as int) % (b.users() as int);
            let row = a.user_debt@[j]@;
            assert(any_positive(row) == (exists|k: int| 0 <= k < row.len() && #[trigger] row[k] > 0));
        },
        _ => {},
    }
}

/// Check what an operation must have done, comparing the snapshots before
/// and after it.  `account_hf` is the health factor the router reported for
/// the operation's user afterwards (`None` when the query failed);
/// `current_prices` are the asset prices the target holds now.
pub fn verify_operation_invariants(
    op: &Operation,
    before: &ProtocolSnapshot,
    after: &ProtocolSnapshot,
    success: bool,
    account_hf: Option<u128>,
    current_prices: &Vec<u128>,
) -> (ok: bool)
    requires
        comparable(*before, *after),
        current_prices@.len() == before.assets(),
        indexes_state(*op, success) ==> before.assets() > 0 && before.users() > 0,
        operation_checks_fit(*op, *before, *after, success),
    ensures
        ok == operation_invariants_hold(*op, *before, *after, success, account_hf, current_prices@),
{
    let n = before.total_supply.len();
    let m = before.user_collateral.len();
    match op {
        Operation::Supply { user_idx, asset_idx, .. } => {
            if !success {
                return true;
            }
            let i = (*asset_idx as usize) % n;
            let j = (*user_idx as usize) % m;
            after.user_underlying[j][i] <= before.user_underlying[j][i]
                && after.user_collateral[j][i] >= before.user_collateral[j][i]
                && after.total_supply[i] >= before.total_supply[i]
        },
        Operation::Withdraw { user_idx, asset_idx, .. } => {
            if !success {
                return true;
            }
            check_withdraw(before, after, (*user_idx as usize) % m, (*asset_idx as usize) % n, account_hf)
        },
        Operation::WithdrawAll { user_idx, asset_idx } => {
            if !success {
                return true;
            }
            check_withdraw(before, after, (*user_idx as usize) % m, (*asset_idx as usize) % n, account_hf)
        },
        Operation::Borrow { user_idx, asset_idx, .. } => {
            if !success {
                return true;
            }
            let i = (*asset_idx as usize) % n;
            let j = (*user_idx as usize) % m;
            if after.user_underlying[j][i] < before.user_underlying[j][i]
                || after.user_debt[j][i] < before.user_debt[j][i]
                || after.total_debt[i] < before.total_debt[i] {
                return false;
            }
            match account_hf {
                Some(hf) => hf >= WAD,
                None => true,
            }
        },
        Operation::Repay { user_idx, asset_idx, .. } => {
            if !success {
                return true;
            }
            let i = (*asset_idx as usize) % n;
            let j = (*user_idx as usize) % m;
            after.user_underlying[j][i] <= before.user_underlying[j][i]
                && after.user_debt[j][i] <= before.user_debt[j][i]
        },
        Operation::RepayAll { user_idx, asset_idx } => {
            if !success {
                return true;
            }
            let i = (*asset_idx as usize) % n;
            let j = (*user_idx as usize) % m;
            after.user_underlying[j][i] <= before.user_underlying[j][i]
                && after.user_debt[j][i] <= before.user_debt[j][i]
        },
        Operation::TimeWarp { .. } => after.timestamp >= before.timestamp,
        Operation::Liquidate { user_idx, collateral_idx, debt_idx, .. } => {
            if !success {
                return true;
            }
            check_liquidation(
                before,
                after,
                (*user_idx as usize) % m,
                (*collateral_idx as usize) % n,
                (*debt_idx as usize) % n,
            )
        },
        Operation::MultiAssetLiquidation { user_idx, collateral_idx, debt_idx, .. } => {
            if !success {
                return true;
            }
            check_liquidation(
                before,
                after,
                (*user_idx as usize) % m,
                (*collateral_idx as usize) % n,
                (*debt_idx as usize) % n,
            )
        },
        Operation::FlashLoan { asset_idx, receiver_type, .. } => {
            if !success {
                return true;
            }
            let i = (*asset_idx as usize) % n;
            match receiver_type {
                FlashLoanReceiverType::Standard => after.treasury_balances[i]
                    >= before.treasury_balances[i],
                _ => true,
            }
        },
        Operation::DustSupply { user_idx, asset_idx, .. } => {
            if !success {
                return true;
            }
            let i = (*asset_idx as usize) % n;
            let j = (*user_idx as usize) % m;
            after.user_collateral[j][i] >= before.user_collateral[j][i]
        },
        Operation::DustBorrow { user_idx, asset_idx, .. } => {
            if !success {
                return true;
            }
            let i = (*asset_idx as usize) % n;
            let j = (*user_idx as usize) % m;
            after.user_debt[j][i] >= before.user_debt[j][i]
        },
        Operation::PriceToZero { asset_idx } => {
            let i = (*asset_idx as usize) % n;
            current_prices[i] == ZERO_PRICE
        },
        Operation::RapidSupplyWithdraw { user_idx, asset_idx, .. } => {
            check_rapid(before, after, (*user_idx as usize) % m, (*asset_idx as usize) % n)
        },
        Operation::FirstDepositorAttack { attacker_idx, victim_idx, asset_idx } => {
            if !success {
                return true;
            }
            check_first_depositor(
                before,
                after,
                (*attacker_idx as usize) % m,
                (*victim_idx as usize) % m,
                (*asset_idx as usize) % n,
            )
        },
        Operation::DonationAttack { asset_idx, .. } => {
            if !success {
                return true;
            }
            let i = (*asset_idx as usize) % n;
            before.total_supply[i] == after.total_supply[i]
        },
        _ => true,
    }
}


// ---------------------------------------------------------------------------
// State comparisons
// ---------------------------------------------------------------------------

/// Asset `i` has the same aToken and debt supply in both snapshots.
pub open spec fn supplies_unchanged(b: ProtocolSnapshot, a: ProtocolSnapshot, i: int) -> bool {
    b.total_supply@[i] == a.total_supply@[i] && b.total_debt@[i] == a.total_debt@[i]
}

/// A failed operation left every asset's aToken and debt supply unchanged.
pub fn verify_failed_operation_unchanged(before: &ProtocolSnapshot, after: &ProtocolSnapshot) -> (ok: bool)
    requires
        comparable(*before, *after),
    ensures
        ok == (forall|i: int|
            0 <= i < before.assets() ==> #[trigger] supplies_unchanged(*before, *after, i)),
{
    let mut i: usize = 0;
    while i < before.total_supply.len()
        invariant
            comparable(*before, *after),
            i <= before.assets(),
            forall|k: int| 0 <= k < i ==> #[trigger] supplies_unchanged(*before, *after, k),
        decreases before.assets() - i,
    {
        if before.total_supply[i] != after.total_supply[i] || before.total_debt[i] != after.total_debt[i] {
            assert(!supplies_unchanged(*before, *after, i as int));
            return false;
        }
        assert(supplies_unchanged(*before, *after, i as int));
        i = i + 1;
    }
    true
}

/// Liquidity and borrow indices, and the timestamp, never decrease.
pub open spec fn indices_monotone(b: ProtocolSnapshot, a: ProtocolSnapshot) -> bool {
    &&& forall|i: int|
        0 <= i < b.assets() ==> #[trigger] a.liquidity_indices@[i] >= b.liquidity_indices@[i]
            && a.borrow_indices@[i] >= b.borrow_indices@[i]
    &&& a.timestamp >= b.timestamp
}

/// The snapshot checks compare before with after: comparing a snapshot
/// with itself passes; index monotonicity chains (no decrease from `x` to
/// `y` and from `y` to `z` means none from `x` to `z`); any index of an
/// asset that went down, or a clock that went back, fails it; any asset
/// whose aToken or debt supply moved fails the check after a failed
/// operation; and a treasury that lost on an indebted asset while time
/// passed fails the accrual check.
pub proof fn lemma_snapshot_comparisons(x: ProtocolSnapshot, y: ProtocolSnapshot, z: ProtocolSnapshot, i: int)
    ensures
        indices_monotone(x, x),
        forall|k: int| 0 <= k < x.assets() ==> #[trigger] supplies_unchanged(x, x, k),
        treasury_accrued(x, x),
        indices_monotone(x, y) && indices_monotone(y, z) && y.assets() == x.assets() ==> indices_monotone(x, z),
        0 <= i < x.assets() && (y.liquidity_indices@[i] < x.liquidity_indices@[i] || y.borrow_indices@[i]
            < x.borrow_indices@[i]) ==> !indices_monotone(x, y),
        y.timestamp < x.timestamp ==> !indices_monotone(x, y),
        0 <= i < x.assets() && (y.total_supply@[i] != x.total_supply@[i] || y.total_debt@[i]
            != x.total_debt@[i]) ==> !(forall|k: int| 0 <= k < x.assets() ==> #[trigger] supplies_unchanged(x, y, k)),
        0 <= i < x.assets() && y.timestamp > x.timestamp && x.total_debt@[i] > 0 && y.treasury_balances@[i]
            < x.treasury_balances@[i] ==> !treasury_accrued(x, y),
{
    if 0 <= i < x.assets() {
        assert(supplies_unchanged(x, y, i) == (x.total_supply@[i] == y.total_supply@[i] && x.total_debt@[i]
            == y.total_debt@[i]));
        assert(treasury_kept(x, y, i) == (x.total_debt@[i] > 0 ==> y.treasury_balances@[i]
            >= x.treasury_balances@[i]));
    }
}

/// Check that no index and not the clock went backwards between two
/// snapshots.
pub fn verify_index_monotonicity(before: &ProtocolSnapshot, after: &ProtocolSnapshot) -> (ok: bool)
    requires
        comparable(*before, *after),
    ensures
        ok == indices_monotone(*before, *after),
{
    let n = before.liquidity_indices.len();
    let mut i: usize = 0;
    while i < n
        invariant
            comparable(*before, *after),
            n == before.assets(),
            i <= n,
            forall|k: int|
                0 <= k < i ==> #[trigger] after.liquidity_indices@[k] >= before.liquidity_indices@[k]
                    && after.borrow_indices@[k] >= before.borrow_indices@[k],
        decreases n - i,
    {
        if after.liquidity_indices[i] < before.liquidity_indices[i] || after.borrow_indices[i]
            < before.borrow_indices[i] {
            return false;
        }
        i = i + 1;
    }
    after.timestamp >= before.timestamp
}

/// The protocol reserves of an asset may only fall by what the treasury
/// collected (within the tolerance), or by no more than the tolerance.
pub open spec fn reserves_kept(b: ProtocolSnapshot, a: ProtocolSnapshot, i: int, tolerance: int) -> bool {
    let before_reserves = b.protocol_reserves@[i] as int;
    let after_reserves = a.protocol_reserves@[i] as int;
    let decrease = before_reserves - after_reserves;
    let treasury_increase = a.treasury_balances@[i] - b.treasury_balances@[i];
    after_reserves < before_reserves ==> if treasury_increase > 0 {
        -tolerance <= decrease - treasury_increase <= tolerance
    } else {
        decrease <= tolerance
    }
}

/// Whether the reserve comparison of an asset fits i128.
pub open spec fn reserves_comparison_fits(b: ProtocolSnapshot, a: ProtocolSnapshot, i: int) -> bool {
    a.protocol_reserves@[i] < b.protocol_reserves@[i] ==> {
        &&& b.protocol_reserves@[i] - a.protocol_reserves@[i] <= i128::MAX
        &&& i128::MIN <= a.treasury_balances@[i] - b.treasury_balances@[i] <= i128::MAX
    }
}

/// Check that protocol reserves only fell where the treasury collected them,
/// allowing the rounding tolerance for `operation_count` operations.
pub fn verify_accrued_to_treasury_monotonicity(
    before: &ProtocolSnapshot,
    after: &ProtocolSnapshot,
    operation_count: u64,
) -> (ok: bool)
    requires
        comparable(*before, *after),
        forall|i: int| 0 <= i < before.assets() ==> #[trigger] reserves_comparison_fits(*before, *after, i),
    ensures
        ok == (forall|i: int|
            0 <= i < before.assets() ==> #[trigger] reserves_kept(
                *before,
                *after,
                i,
                crate::common::constants::tolerance_spec(operation_count as int),
            )),
{
    let tolerance = crate::common::constants::calculate_tolerance(operation_count);
    let n = before.protocol_reserves.len();
    let mut i: usize = 0;
    while i < n
        invariant
            comparable(*before, *after),
            n == before.assets(),
            i <= n,
            tolerance == crate::common::constants::tolerance_spec(operation_count as int),
            forall|k: int| 0 <= k < n ==> #[trigger] reserves_comparison_fits(*before, *after, k),
            forall|k: int| 0 <= k < i ==> #[trigger] reserves_kept(*before, *after, k, tolerance as int),
        decreases n - i,
    {
        proof {
            assert(reserves_comparison_fits(*before, *after, i as int));
        }
        let before_reserves = before.protocol_reserves[i];
        let after_reserves = after.protocol_reserves[i];
        if after_reserves < before_reserves {
            let decrease = before_reserves - after_reserves;
            let treasury_increase = after.treasury_balances[i] - before.treasury_balances[i];
            if treasury_increase > 0 {
                let diff = decrease - treasury_increase;
                if diff > tolerance || diff < -tolerance {
                    assert(!reserves_kept(*before, *after, i as int, tolerance as int));
                    return false;
                }
            } else if decrease > tolerance {
                assert(!reserves_kept(*before, *after, i as int, tolerance as int));
                return false;
            }
        }
        i = i + 1;
    }
    true
}

/// The treasury balance of asset `i` did not fall if the asset had debt.
pub open spec fn treasury_kept(b: ProtocolSnapshot, a: ProtocolSnapshot, i: int) -> bool {
    b.total_debt@[i] > 0 ==> a.treasury_balances@[i] >= b.treasury_balances@[i]
}

/// When time passed, the treasury balance of every asset with debt did not
/// fall.
pub open spec fn treasury_accrued(b: ProtocolSnapshot, a: ProtocolSnapshot) -> bool {
    a.timestamp > b.timestamp ==> forall|i: int|
        0 <= i < b.assets() ==> #[trigger] treasury_kept(b, a, i)
}

/// Check that the treasury did not lose anything on indebted assets while
/// time passed.
pub fn verify_treasury_accrual(before: &ProtocolSnapshot, after: &ProtocolSnapshot) -> (ok: bool)
    requires
        comparable(*before, *after),
    ensures
        ok == treasury_accrued(*before, *after),
{
    let time_delta = after.timestamp.saturating_sub(before.timestamp);
    if time_delta == 0 {
        return true;
    }
    let mut i: usize = 0;
    while i < before.total_debt.len()
        invariant
            comparable(*before, *after),
            after.timestamp > before.timestamp,
            i <= before.assets(),
            forall|k: int| 0 <= k < i ==> #[trigger] treasury_kept(*before, *after, k),
        decreases before.assets() - i,
    {
        if before.total_debt[i] > 0 && after.treasury_balances[i] < before.treasury_balances[i] {
            assert(!treasury_kept(*before, *after, i as int));
            return false;
        }
        assert(treasury_kept(*before, *after, i as int));
        i = i + 1;
    }
    true
}

/// The premium a flash loan of `amount` owes: 9 bps.
pub open spec fn expected_premium(amount: int) -> int {
    amount * FLASH_LOAN_PREMIUM_BPS / (BASIS_POINTS as int)
}

/// After a successful flash loan the treasury of the asset grew by the
/// expected premium within -5% and +5% (plus 100).
pub open spec fn premium_collected(b: ProtocolSnapshot, a: ProtocolSnapshot, i: int, amount: int) -> bool {
    let expected = expected_premium(amount);
    let increase = (a.treasury_balances@[i] - b.treasury_balances@[i]) as u128;
    expected > 0 ==> expected * 95 / 100 <= increase <= expected * 105 / 100 + 100
}

/// Check that a successful flash loan of `amount` of asset
/// `asset_idx % assets` paid the treasury its premium.
pub fn verify_flash_loan_premium(
    before: &ProtocolSnapshot,
    after: &ProtocolSnapshot,
    asset_idx: usize,
    flash_loan_amount: u128,
    success: bool,
) -> (ok: bool)
    requires
        comparable(*before, *after),
        success ==> before.assets() > 0,
        success ==> flash_loan_amount * FLASH_LOAN_PREMIUM_BPS <= u128::MAX,
        success && expected_premium(flash_loan_amount as int) > 0 ==> i128::MIN
            <= after.treasury_balances@[(asset_idx as int) % (before.assets() as int)]
            - before.treasury_balances@[(asset_idx as int) % (before.assets() as int)]
            <= i128::MAX,
    ensures
        ok == (success ==> premium_collected(
            *before,
            *after,
            (asset_idx as int) % (before.assets() as int),
            flash_loan_amount as int,
        )),
{
    if !success {
        return true;
    }
    let i = asset_idx % before.total_supply.len();
    let expected = (flash_loan_amount * FLASH_LOAN_PREMIUM_BPS) / (BASIS_POINTS as u128);
    if expected > 0 {
        let treasury_increase = (after.treasury_balances[i] - before.treasury_balances[i]) as u128;
        let min_expected = expected * 95 / 100;
        let max_expected = expected * 105 / 100 + 100;
        treasury_increase >= min_expected && treasury_increase <= max_expected
    } else {
        true
    }
}

/// Check that a successful flash loan did not reduce the available liquidity
/// of asset `asset_idx % assets`.
pub fn verify_flash_loan_repayment(
    before: &ProtocolSnapshot,
    after: &ProtocolSnapshot,
    asset_idx: usize,
    success: bool,
) -> (ok: bool)
    requires
        comparable(*before, *after),
        success ==> before.assets() > 0,
    ensures
        ok == (success ==> after.available_liquidity@[(asset_idx as int) % (before.assets() as int)]
            >= before.available_liquidity@[(asset_idx as int) % (before.assets() as int)]),
{
    if !success {
        return true;
    }
    let i = asset_idx % before.total_supply.len();
    after.available_liquidity[i] >= before.available_liquidity[i]
}

/// The largest cumulative rounding error accepted after `operation_count`
/// operations.
pub open spec fn max_cumulative_rounding(operation_count: int) -> int {
    let scaled = operation_count * MAX_ROUNDING_PER_OP * 2;
    if MAX_CUMULATIVE_ROUNDING >= scaled {
        MAX_CUMULATIVE_ROUNDING as int
    } else {
        scaled
    }
}

/// Check that no asset's cumulative rounding error exceeds the larger of
/// 5,000 and ten units per operation.
pub fn verify_cumulative_rounding(cumulative_rounding_error: &Vec<i128>, operation_count: u64) -> (ok: bool)
    ensures
        ok == (forall|i: int|
            0 <= i < cumulative_rounding_error@.len() ==> #[trigger] cumulative_rounding_error@[i]
                <= max_cumulative_rounding(operation_count as int)),
{
    let scaled = (operation_count as i128) * MAX_ROUNDING_PER_OP * 2;
    let max_acceptable = if MAX_CUMULATIVE_ROUNDING >= scaled {
        MAX_CUMULATIVE_ROUNDING
    } else {
        scaled
    };
    let mut i: usize = 0;
    while i < cumulative_rounding_error.len()
        invariant
            i <= cumulative_rounding_error@.len(),
            max_acceptable == max_cumulative_rounding(operation_count as int),
            forall|k: int| 0 <= k < i ==> #[trigger] cumulative_rounding_error@[k] <= max_acceptable,
        decreases cumulative_rounding_error@.len() - i,
    {
        if cumulative_rounding_error[i] > max_acceptable {
            return false;
        }
        i = i + 1;
    }
    true
}

// ---------------------------------------------------------------------------
// Reserve data
// ---------------------------------------------------------------------------

/// Indices at least RAY, borrow rate at least the liquidity rate.
pub open spec fn interest_sound(r: ReserveReading) -> bool {
    &&& r.liquidity_index >= RAY
    &&& r.variable_borrow_index >= RAY
    &&& r.current_variable_borrow_rate >= r.current_liquidity_rate
}

/// Every reserve that could be read satisfies `p`.
pub open spec fn all_read(reserves: Seq<Option<ReserveReading>>, p: spec_fn(ReserveReading) -> bool) -> bool {
    forall|i: int| 0 <= i < reserves.len() ==> match #[trigger] reserves[i] {
        Some(r) => p(r),
        None => true,
    }
}

/// Check every reserve that could be read: indices at least RAY and the
/// borrow rate at least the liquidity rate.
pub fn verify_interest_invariants(reserves: &Vec<Option<ReserveReading>>) -> (ok: bool)
    ensures
        ok == all_read(reserves@, |r: ReserveReading| interest_sound(r)),
{
    let mut i: usize = 0;
    while i < reserves.len()
        invariant
            i <= reserves@.len(),
            forall|k: int|
                0 <= k < i ==> match #[trigger] reserves@[k] {
                    Some(r) => interest_sound(r),
                    None => true,
                },
        decreases reserves@.len() - i,
    {
        match reserves[i] {
            Some(r) => {
                if !(r.liquidity_index >= RAY && r.variable_borrow_index >= RAY
                    && r.current_variable_borrow_rate >= r.current_liquidity_rate) {
                    return false;
                }
            },
            None => {},
        }
        i = i + 1;
    }
    true
}

/// The liquidation bonus with a leading 100% removed (10,500 reads as 500).
pub open spec fn effective_bonus(bonus: int) -> int {
    if bonus > 10000 {
        bonus - 10000
    } else {
        bonus
    }
}

/// Bonus at most 50%, LTV within the threshold, threshold at most 100%.
pub open spec fn bonus_sound(r: ReserveReading) -> bool {
    &&& effective_bonus(r.liquidation_bonus as int) <= 5000
    &&& r.ltv <= r.liquidation_threshold
    &&& r.liquidation_threshold <= 10000
}

/// Check every reserve that could be read: liquidation bonus at most 50%,
/// LTV at most the liquidation threshold, threshold at most 100%.
pub fn verify_liquidation_bonus_invariants(reserves: &Vec<Option<ReserveReading>>) -> (ok: bool)
    ensures
        ok == all_read(reserves@, |r: ReserveReading| bonus_sound(r)),
{
    let mut i: usize = 0;
    while i < reserves.len()
        invariant
            i <= reserves@.len(),
            forall|k: int|
                0 <= k < i ==> match #[trigger] reserves@[k] {
                    Some(r) => bonus_sound(r),
                    None => true,
                },
        decreases reserves@.len() - i,
    {
        match reserves[i] {
            Some(r) => {
                let bonus = if r.liquidation_bonus > 10000 {
                    r.liquidation_bonus - 10000
                } else {
                    r.liquidation_bonus
                };
                if !(bonus <= 5000 && r.ltv <= r.liquidation_threshold && r.liquidation_threshold
                    <= 10000) {
                    return false;
                }
            },
            None => {},
        }
        i = i + 1;
    }
    true
}

/// LTV within the threshold, threshold below 100%, reserve factor at most
/// 100%, bonus at most 50%.
pub open spec fn parameters_safe(r: ReserveReading) -> bool {
    &&& r.ltv <= r.liquidation_threshold
    &&& r.liquidation_threshold < 10000
    &&& r.reserve_factor <= 10000
    &&& effective_bonus(r.liquidation_bonus as int) <= 5000
}

/// Check every reserve that could be read for safe parameters: LTV at most
/// the liquidation threshold, threshold below 100%, reserve factor at most
/// 100%, liquidation bonus at most 50%.
pub fn verify_parameter_bounds(reserves: &Vec<Option<ReserveReading>>) -> (ok: bool)
    ensures
        ok == all_read(reserves@, |r: ReserveReading| parameters_safe(r)),
{
    let mut i: usize = 0;
    while i < reserves.len()
        invariant
            i <= reserves@.len(),
            forall|k: int|
                0 <= k < i ==> match #[trigger] reserves@[k] {
                    Some(r) => parameters_safe(r),
                    None => true,
                },
        decreases reserves@.len() - i,
    {
        match reserves[i] {
            Some(r) => {
                let bonus = if r.liquidation_bonus > 10000 {
                    r.liquidation_bonus - 10000
                } else {
                    r.liquidation_bonus
                };
                if !(r.ltv <= r.liquidation_threshold && r.liquidation_threshold < 10000
                    && r.reserve_factor <= 10000 && bonus <= 5000) {
                    return false;
                }
            },
            None => {},
        }
        i = i + 1;
    }
    true
}

/// Reserve factor at most 100%, and with a positive factor, debt and time
/// passing, the treasury balance did not fall.
pub open spec fn reserve_factor_sound(
    r: ReserveReading,
    b: ProtocolSnapshot,
    a: ProtocolSnapshot,
    i: int,
) -> bool {
    &&& r.reserve_factor <= 10000
    &&& (r.reserve_factor > 0 && b.total_debt@[i] > 0 && a.timestamp > b.timestamp) ==> a.treasury_balances@[i]
        >= b.treasury_balances@[i]
}

/// Check the reserve factor of every reserve that could be read, and that a
/// positive factor never lets the treasury balance of an indebted asset fall
/// while time passes.
pub fn verify_reserve_factor_invariants(
    reserves: &Vec<Option<ReserveReading>>,
    before: &ProtocolSnapshot,
    after: &ProtocolSnapshot,
) -> (ok: bool)
    requires
        comparable(*before, *after),
        reserves@.len() == before.assets(),
    ensures
        ok == (forall|i: int|
            0 <= i < reserves@.len() ==> match #[trigger] reserves@[i] {
                Some(r) => reserve_factor_sound(r, *before, *after, i),
                None => true,
            }),
{
    let time_delta = after.timestamp.saturating_sub(before.timestamp);
    let mut i: usize = 0;
    while i < reserves.len()
        invariant
            comparable(*before, *after),
            reserves@.len() == before.assets(),
            time_delta == (if after.timestamp > before.timestamp {
                after.timestamp - before.timestamp
            } else {
                0
            }),
            i <= reserves@.len(),
            forall|k: int|
                0 <= k < i ==> match #[trigger] reserves@[k] {
                    Some(r) => reserve_factor_sound(r, *before, *after, k),
                    None => true,
                },
        decreases reserves@.len() - i,
    {
        match reserves[i] {
            Some(r) => {
                if r.reserve_factor > 10000 {
                    return false;
                }
                if r.reserve_factor > 0 && before.total_debt[i] > 0 && time_delta > 0
                    && after.treasury_balances[i] < before.treasury_balances[i] {
                    return false;
                }
            },
            None => {},
        }
        i = i + 1;
    }
    true
}

/// The largest index growth accepted over `time_delta` seconds at a
/// borrow rate: RAY plus twice the linear growth.
pub open spec fn max_reasonable_index(rate: int, time_delta: int) -> int {
    RAY + (rate * time_delta / (SECONDS_PER_YEAR as int)) * 2
}

/// Whether the index bound of every readable reserve fits u128.
pub open spec fn interest_math_fits(reserves: Seq<Option<ReserveReading>>, time_delta: int) -> bool {
    forall|i: int| 0 <= i < reserves.len() ==> match #[trigger] reserves[i] {
        Some(r) => {
            &&& r.current_variable_borrow_rate * time_delta <= u128::MAX
            &&& max_reasonable_index(r.current_variable_borrow_rate as int, time_delta) <= u128::MAX
        },
        None => true,
    }
}

/// Check that, when time passed, no readable reserve's index outgrew RAY
/// plus twice the linear growth at its current borrow rate.
pub fn verify_interest_math(
    before: &ProtocolSnapshot,
    after: &ProtocolSnapshot,
    reserves: &Vec<Option<ReserveReading>>,
) -> (ok: bool)
    requires
        after.timestamp > before.timestamp ==> interest_math_fits(
            reserves@,
            after.timestamp - before.timestamp,
        ),
    ensures
        ok == (after.timestamp > before.timestamp ==> forall|i: int|
            0 <= i < reserves@.len() ==> match #[trigger] reserves@[i] {
                Some(r) => {
                    let bound = max_reasonable_index(
                        r.current_variable_borrow_rate as int,
                        after.timestamp - before.timestamp,
                    );
                    r.liquidity_index <= bound && r.variable_borrow_index <= bound
                },
                None => true,
            }),
{
    let time_delta = after.timestamp.saturating_sub(before.timestamp);
    if time_delta == 0 {
        return true;
    }
    let mut i: usize = 0;
    while i < reserves.len()
        invariant
            after.timestamp > before.timestamp,
            time_delta == after.timestamp - before.timestamp,
            interest_math_fits(reserves@, time_delta as int),
            i <= reserves@.len(),
            forall|k: int|
                0 <= k < i ==> match #[trigger] reserves@[k] {
                    Some(r) => {
                        let bound = max_reasonable_index(
                            r.current_variable_borrow_rate as int,
                            time_delta as int,
                        );
                        r.liquidity_index <= bound && r.variable_borrow_index <= bound
                    },
                    None => true,
                },
        decreases reserves@.len() - i,
    {
        match reserves[i] {
            Some(r) => {
                proof {
                    assert(match reserves@[i as int] {
                        Some(r) => {
                            &&& r.current_variable_borrow_rate * time_delta <= u128::MAX
                            &&& max_reasonable_index(r.current_variable_borrow_rate as int, time_delta as int)
                                <= u128::MAX
                        },
                        None => true,
                    });
                }
                let max_rate_growth = (r.current_variable_borrow_rate * (time_delta as u128))
                    / SECONDS_PER_YEAR;
                let max_reasonable_growth = RAY + (max_rate_growth * 2);
                if r.liquidity_index > max_reasonable_growth || r.variable_borrow_index
                    > max_reasonable_growth {
                    return false;
                }
            },
            None => {},
        }
        i = i + 1;
    }
    true
}


// ---------------------------------------------------------------------------
// Single-snapshot checks
// ---------------------------------------------------------------------------

/// A debt ceiling in whole tokens, in smallest units (saturating).
pub open spec fn ceiling_units(ceiling: int) -> int {
    if ceiling * crate::common::constants::TOKEN_UNIT > u128::MAX {
        u128::MAX as int
    } else {
        ceiling * crate::common::constants::TOKEN_UNIT
    }
}

/// The total debt of asset `i` stays within its ceiling plus one token.
pub open spec fn within_ceiling(s: ProtocolSnapshot, i: int, ceiling: Option<u128>) -> bool {
    match ceiling {
        Some(c) => c > 0 ==> (s.total_debt@[i] as u128) <= ceiling_units(c as int)
            + crate::common::constants::TOKEN_UNIT,
        None => true,
    }
}

/// Check every debt ceiling that could be read (whole tokens, 0 for none)
/// against the asset's total debt, allowing one token of rounding.
pub fn verify_debt_ceiling_invariants(snapshot: &ProtocolSnapshot, ceilings: &Vec<Option<u128>>) -> (ok: bool)
    requires
        snapshot.shaped(),
        ceilings@.len() == snapshot.assets(),
        forall|i: int|
            0 <= i < ceilings@.len() ==> match #[trigger] ceilings@[i] {
                Some(c) => c > 0 ==> ceiling_units(c as int) + crate::common::constants::TOKEN_UNIT
                    <= u128::MAX,
                None => true,
            },
    ensures
        ok == (forall|i: int|
            0 <= i < ceilings@.len() ==> #[trigger] within_ceiling(*snapshot, i, ceilings@[i])),
{
    let decimals = crate::common::constants::TOKEN_UNIT;
    let mut i: usize = 0;
    while i < ceilings.len()
        invariant
            snapshot.shaped(),
            ceilings@.len() == snapshot.assets(),
            decimals == crate::common::constants::TOKEN_UNIT,
            forall|k: int|
                0 <= k < ceilings@.len() ==> match #[trigger] ceilings@[k] {
                    Some(c) => c > 0 ==> ceiling_units(c as int) + crate::common::constants::TOKEN_UNIT
                        <= u128::MAX,
                    None => true,
                },
            i <= ceilings@.len(),
            forall|k: int| 0 <= k < i ==> #[trigger] within_ceiling(*snapshot, k, ceilings@[k]),
        decreases ceilings@.len() - i,
    {
        match ceilings[i] {
            Some(c) => {
                if c > 0 {
                    assert(ceiling_units(c as int) + crate::common::constants::TOKEN_UNIT <= u128::MAX);
                    let units = match c.checked_mul(decimals) {
                        Some(u) => u,
                        None => u128::MAX,
                    };
                    let total_debt = snapshot.total_debt[i] as u128;
                    if total_debt > units + decimals {
                        assert(!within_ceiling(*snapshot, i as int, ceilings@[i as int]));
                        return false;
                    }
                }
            },
            None => {},
        }
        assert(within_ceiling(*snapshot, i as int, ceilings@[i as int]));
        i = i + 1;
    }
    true
}

/// Where the asset has supply and liquidity, its debt is at most 100% of
/// available liquidity plus debt.
pub open spec fn utilization_bounded(s: ProtocolSnapshot, i: int) -> bool {
    let total_supply = s.total_supply@[i] as u128;
    let total_debt = s.total_debt@[i] as u128;
    let total_liquidity = (s.available_liquidity@[i] as u128) + total_debt;
    (total_supply > 0 && total_liquidity > 0) ==> total_debt * RAY / total_liquidity <= RAY
}

/// Whether the utilization computation of asset `i` fits u128.
pub open spec fn utilization_fits(s: ProtocolSnapshot, i: int) -> bool {
    let total_debt = s.total_debt@[i] as u128;
    (s.total_supply@[i] as u128) > 0 ==> {
        &&& (s.available_liquidity@[i] as u128) + total_debt <= u128::MAX
        &&& total_debt * RAY <= u128::MAX
    }
}

/// Check that no asset's utilization (debt over available liquidity plus
/// debt, in RAY) exceeds 100%.
pub fn verify_utilization_invariants(snapshot: &ProtocolSnapshot) -> (ok: bool)
    requires
        snapshot.shaped(),
        forall|i: int| 0 <= i < snapshot.assets() ==> #[trigger] utilization_fits(*snapshot, i),
    ensures
        ok == (forall|i: int| 0 <= i < snapshot.assets() ==> #[trigger] utilization_bounded(*snapshot, i)),
{
    let mut i: usize = 0;
    while i < snapshot.total_supply.len()
        invariant
            snapshot.shaped(),
            forall|k: int| 0 <= k < snapshot.assets() ==> #[trigger] utilization_fits(*snapshot, k),
            i <= snapshot.assets(),
            forall|k: int| 0 <= k < i ==> #[trigger] utilization_bounded(*snapshot, k),
        decreases snapshot.assets() - i,
    {
        assert(utilization_fits(*snapshot, i as int));
        let total_supply = snapshot.total_supply[i] as u128;
        let total_debt = snapshot.total_debt[i] as u128;
        if total_supply > 0 {
            let available_liquidity = snapshot.available_liquidity[i] as u128;
            let total_liquidity = available_liquidity + total_debt;
            if total_liquidity > 0 {
                let utilization = (total_debt * RAY) / total_liquidity;
                if utilization > RAY {
                    assert(!utilization_bounded(*snapshot, i as int));
                    return false;
                }
            }
        }
        assert(utilization_bounded(*snapshot, i as int));
        i = i + 1;
    }
    true
}

/// What the pool holds beyond the aToken supply and the protocol reserves
/// is below 5,000 units.
pub open spec fn dust_bounded(s: ProtocolSnapshot, i: int) -> bool {
    let pool_balance = s.available_liquidity@[i] as u128;
    let accounted = (s.total_supply@[i] as u128) + (s.protocol_reserves@[i] as u128);
    (if pool_balance > accounted {
        pool_balance - accounted
    } else {
        0
    }) < crate::common::constants::DUST_THRESHOLD * 100
}

/// Check that no asset's pool holds 5,000 or more unaccounted units.
pub fn verify_no_dust_accumulation(snapshot: &ProtocolSnapshot) -> (ok: bool)
    requires
        snapshot.shaped(),
        forall|i: int|
            0 <= i < snapshot.assets() ==> (#[trigger] snapshot.total_supply@[i] as u128)
                + (snapshot.protocol_reserves@[i] as u128) <= u128::MAX,
    ensures
        ok == (forall|i: int| 0 <= i < snapshot.assets() ==> #[trigger] dust_bounded(*snapshot, i)),
{
    let mut i: usize = 0;
    while i < snapshot.total_supply.len()
        invariant
            snapshot.shaped(),
            forall|k: int|
                0 <= k < snapshot.assets() ==> (#[trigger] snapshot.total_supply@[k] as u128)
                    + (snapshot.protocol_reserves@[k] as u128) <= u128::MAX,
            i <= snapshot.assets(),
            forall|k: int| 0 <= k < i ==> #[trigger] dust_bounded(*snapshot, k),
        decreases snapshot.assets() - i,
    {
        let pool_balance = snapshot.available_liquidity[i] as u128;
        let accounted = snapshot.total_supply[i] as u128 + snapshot.protocol_reserves[i] as u128;
        let unaccounted = pool_balance.saturating_sub(accounted);
        if unaccounted >= crate::common::constants::DUST_THRESHOLD * 100 {
            assert(!dust_bounded(*snapshot, i as int));
            return false;
        }
        assert(dust_bounded(*snapshot, i as int));
        i = i + 1;
    }
    true
}

/// Whether the price-ratio computation of asset `i` fits u128.
pub open spec fn price_ratio_fits(b: ProtocolSnapshot, a: ProtocolSnapshot, i: int) -> bool {
    let bp = b.prices@[i];
    let ap = a.prices@[i];
    (bp != 0 && ap != 0) ==> if ap > bp {
        ap * 100 <= u128::MAX
    } else {
        bp * 100 <= u128::MAX
    }
}

/// Check oracle prices between two snapshots: prices are compared as ratios
/// (skipping zero prices) and must not be negative, which an unsigned price
/// never is; the check therefore always holds.
pub fn verify_oracle_sanity(before: &ProtocolSnapshot, after: &ProtocolSnapshot) -> (ok: bool)
    requires
        comparable(*before, *after),
        forall|i: int| 0 <= i < before.assets() ==> #[trigger] price_ratio_fits(*before, *after, i),
    ensures
        ok,
{
    let mut i: usize = 0;
    while i < before.prices.len()
        invariant
            comparable(*before, *after),
            forall|k: int| 0 <= k < before.assets() ==> #[trigger] price_ratio_fits(*before, *after, k),
            i <= before.assets(),
        decreases before.assets() - i,
    {
        assert(price_ratio_fits(*before, *after, i as int));
        let before_price = before.prices[i];
        let after_price = after.prices[i];
        if before_price != 0 && after_price != 0 {
            let _price_ratio = if after_price > before_price {
                (after_price * 100) / before_price
            } else {
                (before_price * 100) / after_price
            };
        }
        i = i + 1;
    }
    true
}

/// Check that the pause flag reads consistently: when a first read reports
/// the protocol paused, a second read must report it paused too.
pub fn verify_pause_state_invariant(first_read: bool, second_read: bool) -> (ok: bool)
    ensures
        ok == (first_read ==> second_read),
{
    if first_read {
        second_read
    } else {
        true
    }
}

/// No address is on both lists.
pub open spec fn lists_disjoint(allowed: Seq<u64>, denied: Seq<u64>) -> bool {
    forall|x: int, y: int|
        0 <= x < allowed.len() && 0 <= y < denied.len() ==> #[trigger] allowed[x] != #[trigger] denied[y]
}

fn disjoint(allowed: &Vec<u64>, denied: &Vec<u64>) -> (r: bool)
    ensures
        r == lists_disjoint(allowed@, denied@),
{
    let mut x: usize = 0;
    while x < allowed.len()
        invariant
            x <= allowed@.len(),
            forall|p: int, q: int|
                0 <= p < x && 0 <= q < denied@.len() ==> #[trigger] allowed@[p] != #[trigger] denied@[q],
        decreases allowed@.len() - x,
    {
        let mut y: usize = 0;
        while y < denied.len()
            invariant
                x < allowed@.len(),
                y <= denied@.len(),
                forall|p: int, q: int|
                    0 <= p < x && 0 <= q < denied@.len() ==> #[trigger] allowed@[p]
                        != #[trigger] denied@[q],
                forall|q: int| 0 <= q < y ==> allowed@[x as int] != #[trigger] denied@[q],
            decreases denied@.len() - y,
        {
            if allowed[x] == denied[y] {
                assert(!lists_disjoint(allowed@, denied@)) by {
                    assert(allowed@[x as int] == denied@[y as int]);
                }
                return false;
            }
            y = y + 1;
        }
        x = x + 1;
    }
    true
}

/// Check that no address is both allowed and denied: per reserve (its
/// whitelist against its blacklist) and for liquidations.  Addresses are
/// numbered.
pub fn verify_access_control_invariants(
    reserve_whitelists: &Vec<Vec<u64>>,
    reserve_blacklists: &Vec<Vec<u64>>,
    liquidation_whitelist: &Vec<u64>,
    liquidation_blacklist: &Vec<u64>,
) -> (ok: bool)
    requires
        reserve_whitelists@.len() == reserve_blacklists@.len(),
    ensures
        ok == ((forall|i: int|
            0 <= i < reserve_whitelists@.len() ==> lists_disjoint(
                (#[trigger] reserve_whitelists@[i])@,
                reserve_blacklists@[i]@,
            )) && lists_disjoint(liquidation_whitelist@, liquidation_blacklist@)),
{
    let mut i: usize = 0;
    while i < reserve_whitelists.len()
        invariant
            reserve_whitelists@.len() == reserve_blacklists@.len(),
            i <= reserve_whitelists@.len(),
            forall|k: int|
                0 <= k < i ==> lists_disjoint(
                    (#[trigger] reserve_whitelists@[k])@,
                    reserve_blacklists@[k]@,
                ),
        decreases reserve_whitelists@.len() - i,
    {
        if !disjoint(&reserve_whitelists[i], &reserve_blacklists[i]) {
            return false;
        }
        i = i + 1;
    }
    disjoint(liquidation_whitelist, liquidation_blacklist)
}

/// A user with debt and collateral whose health factor is below the
/// liquidation threshold really has debt.
pub open spec fn liquidatable_has_debt(
    s: ProtocolSnapshot,
    j: int,
    account: Option<crate::common::snapshot::AccountReading>,
    hf_threshold: u128,
) -> bool {
    (any_positive(s.user_debt@[j]@) && any_positive(s.user_collateral@[j]@)) ==> match account {
        Some(acc) => acc.health_factor < hf_threshold ==> acc.total_debt_base > 0,
        None => true,
    }
}

/// Check that every user with debt and collateral reported below the
/// health-factor liquidation threshold has debt in base units.  `accounts`
/// holds each user's account data where the query succeeded.
pub fn verify_liquidation_invariants(
    snapshot: &ProtocolSnapshot,
    accounts: &Vec<Option<crate::common::snapshot::AccountReading>>,
    hf_threshold: u128,
) -> (ok: bool)
    requires
        snapshot.shaped(),
        accounts@.len() == snapshot.users(),
    ensures
        ok == (forall|j: int|
            0 <= j < accounts@.len() ==> #[trigger] liquidatable_has_debt(
                *snapshot,
                j,
                accounts@[j],
                hf_threshold,
            )),
{
    let mut j: usize = 0;
    while j < accounts.len()
        invariant
            snapshot.shaped(),
            accounts@.len() == snapshot.users(),
            j <= accounts@.len(),
            forall|k: int|
                0 <= k < j ==> #[trigger] liquidatable_has_debt(*snapshot, k, accounts@[k], hf_threshold),
        decreases accounts@.len() - j,
    {
        let has_debt = has_positive(&snapshot.user_debt[j]);
        let has_collateral = has_positive(&snapshot.user_collateral[j]);
        if has_debt && has_collateral {
            match accounts[j] {
                Some(acc) => {
                    if acc.health_factor < hf_threshold && acc.total_debt_base == 0 {
                        assert(!liquidatable_has_debt(*snapshot, j as int, accounts@[j as int], hf_threshold));
                        return false;
                    }
                },
                None => {},
            }
        }
        assert(liquidatable_has_debt(*snapshot, j as int, accounts@[j as int], hf_threshold));
        j = j + 1;
    }
    true
}

} // verus!
