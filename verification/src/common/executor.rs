//! The decisions the multi-asset executor makes around each router call:
//! the amount it sends, derived from the balances it read (or no call at all
//! when there is nothing to act on), prices it sets, list edits, and the
//! checks on the outcome of its adversarial sequences.
use vstd::prelude::*;
use crate::common::constants::{
    BASIS_POINTS, DEFAULT_LIQUIDATION_CLOSE_FACTOR, DUST_THRESHOLD, MAX_PRICE, MAX_SAFE_AMOUNT,
    MIN_AMOUNT, MIN_PRICE, RAY,
};
use crate::common::invariants::tdiv;

verus! {

/// `x`, but at least the minimum amount.
pub open spec fn at_least_min(x: int) -> int {
    if x >= MIN_AMOUNT {
        x
    } else {
        MIN_AMOUNT as int
    }
}

/// `min(x, y)`.
pub open spec fn min(x: int, y: int) -> int {
    if x <= y {
        x
    } else {
        y
    }
}

/// The amount a percentage of a positive balance gives: `balance * percent
/// / 100`, at least the minimum amount.
pub open spec fn percent_amount_of(balance: int, percent: int) -> int {
    at_least_min(balance * percent / 100)
}

/// A percentage of a balance (or of available liquidity): `None` when the
/// balance is not positive, else `balance * percent / 100`, at least 1.
pub fn percent_amount(balance: i128, amount_percent: u8) -> (r: Option<u128>)
    requires
        balance > 0 ==> balance * amount_percent <= u128::MAX,
    ensures
        r == (if balance <= 0 {
            None
        } else {
            Some(percent_amount_of(balance as int, amount_percent as int) as u128)
        }),
{
    if balance <= 0 {
        return None;
    }
    let amount = (balance as u128) * (amount_percent as u128) / 100;
    Some(
        if amount >= MIN_AMOUNT {
            amount
        } else {
            MIN_AMOUNT
        },
    )
}

/// A percentage of a balance for a supply, borrow or flash loan: as
/// `percent_amount`, and `None` above the safe maximum.
pub fn capped_percent_amount(balance: i128, amount_percent: u8) -> (r: Option<u128>)
    requires
        balance > 0 ==> balance * amount_percent <= u128::MAX,
    ensures
        r == (if balance <= 0 || percent_amount_of(balance as int, amount_percent as int)
            > MAX_SAFE_AMOUNT {
            None
        } else {
            Some(percent_amount_of(balance as int, amount_percent as int) as u128)
        }),
{
    match percent_amount(balance, amount_percent) {
        Some(a) => if a > MAX_SAFE_AMOUNT {
            None
        } else {
            Some(a)
        },
        None => None,
    }
}

/// A repayment of a percentage of the debt: `None` without debt or without
/// funds; else the percentage of the debt, at most the funds, at least 1.
pub fn repay_amount(debt: i128, balance: i128, amount_percent: u8) -> (r: Option<u128>)
    requires
        debt > 0 ==> debt * amount_percent <= u128::MAX,
    ensures
        r == (if debt <= 0 || balance <= 0 {
            None
        } else {
            Some(at_least_min(min(debt * amount_percent / 100, balance as int)) as u128)
        }),
{
    if debt <= 0 || balance <= 0 {
        return None;
    }
    let share = (debt as u128) * (amount_percent as u128) / 100;
    let capped = if share <= balance as u128 {
        share
    } else {
        balance as u128
    };
    Some(
        if capped >= MIN_AMOUNT {
            capped
        } else {
            MIN_AMOUNT
        },
    )
}

/// A full repayment: `None` without debt or without funds; else the debt,
/// at most the funds.
pub fn repay_all_amount(debt: i128, balance: i128) -> (r: Option<u128>)
    ensures
        r == (if debt <= 0 || balance <= 0 {
            None
        } else {
            Some(min(debt as int, balance as int) as u128)
        }),
{
    if debt <= 0 || balance <= 0 {
        return None;
    }
    Some(
        if debt <= balance {
            debt as u128
        } else {
            balance as u128
        },
    )
}

/// The most of a debt one liquidation may cover: the close factor (50%).
pub open spec fn close_factor_cap(debt: int) -> int {
    debt * DEFAULT_LIQUIDATION_CLOSE_FACTOR / (BASIS_POINTS as int)
}

/// The debt a liquidation covers: `None` when the user has no debt or no
/// collateral; else the percentage of the debt (at least 1), at most the
/// close factor.
pub fn liquidation_cover(user_debt: i128, user_collateral: i128, amount_percent: u8) -> (r: Option<u128>)
    requires
        user_debt > 0 ==> user_debt * amount_percent <= u128::MAX,
        user_debt > 0 ==> user_debt * DEFAULT_LIQUIDATION_CLOSE_FACTOR <= u128::MAX,
    ensures
        r == (if user_debt <= 0 || user_collateral <= 0 {
            None
        } else {
            Some(
                min(
                    percent_amount_of(user_debt as int, amount_percent as int),
                    close_factor_cap(user_debt as int),
                ) as u128,
            )
        }),
{
    if user_debt <= 0 || user_collateral <= 0 {
        return None;
    }
    let debt = user_debt as u128;
    let share = debt * (amount_percent as u128) / 100;
    let debt_to_cover = if share >= MIN_AMOUNT {
        share
    } else {
        MIN_AMOUNT
    };
    let max_liquidatable = (debt * DEFAULT_LIQUIDATION_CLOSE_FACTOR) / (BASIS_POINTS as u128);
    Some(
        if debt_to_cover <= max_liquidatable {
            debt_to_cover
        } else {
            max_liquidatable
        },
    )
}

/// The debt the create-and-liquidate sequence covers once the user is
/// liquidatable: a quarter of the debt (at least 1), at most the close
/// factor.
pub fn quarter_cover(user_debt: u128) -> (r: u128)
    requires
        user_debt * DEFAULT_LIQUIDATION_CLOSE_FACTOR <= u128::MAX,
    ensures
        r == min(at_least_min((user_debt / 4) as int), close_factor_cap(user_debt as int)),
{
    let quarter = user_debt / 4;
    let debt_to_cover = if quarter >= MIN_AMOUNT {
        quarter
    } else {
        MIN_AMOUNT
    };
    let max_liquidatable = (user_debt * DEFAULT_LIQUIDATION_CLOSE_FACTOR) / (BASIS_POINTS as u128);
    if debt_to_cover <= max_liquidatable {
        debt_to_cover
    } else {
        max_liquidatable
    }
}

/// The seconds an extreme time warp skips: whole years, at most ten.
pub fn extreme_warp_seconds(years: u8) -> (s: u32)
    ensures
        s == min(years as int, 10) * 31_536_000,
{
    let capped: u32 = if (years as u32) < 10 {
        years as u32
    } else {
        10
    };
    capped * 31_536_000
}

/// After an extreme time warp, the `i`-th readable reserve's indices are at
/// least RAY, at least the `i`-th pair read before the warp (where there is
/// one), and at most ten thousand RAY.
pub open spec fn warp_indices_sound(
    indices_before: Seq<(u128, u128)>,
    i: int,
    liquidity_index: u128,
    borrow_index: u128,
) -> bool {
    &&& liquidity_index >= RAY
    &&& borrow_index >= RAY
    &&& i < indices_before.len() ==> liquidity_index >= indices_before[i].0 && borrow_index
        >= indices_before[i].1
    &&& liquidity_index <= RAY * 10_000
    &&& borrow_index <= RAY * 10_000
}

/// Check the indices of a reserve after an extreme time warp against the
/// pairs read before it.
pub fn extreme_warp_indices_ok(
    indices_before: &Vec<(u128, u128)>,
    i: usize,
    liquidity_index: u128,
    borrow_index: u128,
) -> (ok: bool)
    ensures
        ok == warp_indices_sound(indices_before@, i as int, liquidity_index, borrow_index),
{
    if liquidity_index < RAY || borrow_index < RAY {
        return false;
    }
    if i < indices_before.len() {
        let (before_liquidity, before_borrow) = indices_before[i];
        if liquidity_index < before_liquidity || borrow_index < before_borrow {
            return false;
        }
    }
    let max_reasonable_index = RAY * 10_000;
    liquidity_index <= max_reasonable_index && borrow_index <= max_reasonable_index
}

/// `x` clamped into the price range.
pub open spec fn clamp_price(x: int) -> int {
    if x < MIN_PRICE {
        MIN_PRICE as int
    } else if x > MAX_PRICE {
        MAX_PRICE as int
    } else {
        x
    }
}

/// The price after a change of `change_bps` basis points: `None` from a zero
/// price, else the moved price clamped into the price range.
pub fn changed_price(current_price: u128, price_change_bps: i16) -> (r: Option<u128>)
    requires
        current_price > 0 ==> 10000 + price_change_bps >= 0,
        current_price > 0 ==> current_price * (10000 + price_change_bps) <= u128::MAX,
    ensures
        r == (if current_price == 0 {
            None
        } else {
            Some(clamp_price(current_price * (10000 + price_change_bps) / 10000) as u128)
        }),
{
    if current_price == 0 {
        return None;
    }
    let change_factor = (10000i64 + price_change_bps as i64) as u128;
    let moved = current_price * change_factor / 10000;
    let floored = if moved >= MIN_PRICE {
        moved
    } else {
        MIN_PRICE
    };
    Some(
        if floored <= MAX_PRICE {
            floored
        } else {
            MAX_PRICE
        },
    )
}

/// The price a volatility swing sets: +20% on even swings, -20% on odd
/// ones, from the base price, clamped into the price range.
pub open spec fn swing_price(base_price: int, swing: int) -> int {
    clamp_price(base_price * (if swing % 2 == 0 {
        12000int
    } else {
        8000int
    }) / 10000)
}

/// The prices a volatility sequence sets, in order: at most ten swings
/// around the base price; `None` from a zero price.
pub fn volatility_prices(base_price: u128, swings: u8) -> (r: Option<Vec<u128>>)
    requires
        base_price * 12000 <= u128::MAX,
    ensures
        base_price == 0 ==> r is None,
        base_price > 0 ==> (r matches Some(v) && v@.len() == min(swings as int, 10) && forall|i: int|
            0 <= i < v@.len() ==> #[trigger] v@[i] == swing_price(base_price as int, i)),
{
    if base_price == 0 {
        return None;
    }
    let count: u8 = if swings < 10 {
        swings
    } else {
        10
    };
    let mut prices: Vec<u128> = Vec::new();
    let mut i: u8 = 0;
    while i < count
        invariant
            base_price > 0,
            base_price * 12000 <= u128::MAX,
            count <= 10,
            count == min(swings as int, 10),
            i <= count,
            prices@.len() == i,
            forall|k: int| 0 <= k < i ==> #[trigger] prices@[k] == swing_price(base_price as int, k),
        decreases count - i,
    {
        let factor: u128 = if i % 2 == 0 {
            12000
        } else {
            8000
        };
        let moved = base_price * factor / 10000;
        let floored = if moved >= MIN_PRICE {
            moved
        } else {
            MIN_PRICE
        };
        let price = if floored <= MAX_PRICE {
            floored
        } else {
            MAX_PRICE
        };
        prices.push(price);
        i = i + 1;
    }
    Some(prices)
}

/// A dust amount: at most the dust threshold.
pub fn dust_amount(dust: u8) -> (a: u128)
    ensures
        a == min(dust as int, DUST_THRESHOLD as int),
{
    let d = dust as u128;
    if d <= DUST_THRESHOLD {
        d
    } else {
        DUST_THRESHOLD
    }
}

/// A dust withdrawal: `None` without a balance; else the dust amount, at
/// most the balance.
pub fn dust_withdraw_amount(dust: u8, balance: i128) -> (r: Option<u128>)
    ensures
        r == (if balance <= 0 {
            None
        } else {
            Some(min(min(dust as int, DUST_THRESHOLD as int), balance as int) as u128)
        }),
{
    if balance <= 0 {
        return None;
    }
    let d = dust_amount(dust);
    Some(
        if d <= balance as u128 {
            d
        } else {
            balance as u128
        },
    )
}

/// The amount each rapid supply uses: a tenth of the initial balance;
/// `None` when that is nothing.
pub fn rapid_cycle_amount(initial_balance: i128) -> (r: Option<u128>)
    ensures
        r == (if initial_balance <= 0 || initial_balance / 10 == 0 {
            None
        } else {
            Some((initial_balance / 10) as u128)
        }),
{
    if initial_balance <= 0 {
        return None;
    }
    let amount = (initial_balance as u128) / 10;
    if amount == 0 {
        None
    } else {
        Some(amount)
    }
}

/// After rapid supply and withdraw cycles the user's underlying plus
/// aTokens exceed the initial balance by at most 0.1% (at least 100).
pub open spec fn rapid_supply_withdraw_holds(initial_balance: int, final_balance: int, a_token_balance: int) -> bool {
    let max_gain = if tdiv(initial_balance, 1000) > 100 {
        tdiv(initial_balance, 1000)
    } else {
        100
    };
    final_balance + a_token_balance <= initial_balance + max_gain
}

/// Check the outcome of rapid supply and withdraw cycles.
pub fn rapid_supply_withdraw_ok(initial_balance: i128, final_balance: i128, a_token_balance: i128) -> (ok: bool)
    requires
        i128::MIN <= final_balance + a_token_balance <= i128::MAX,
        initial_balance + (if tdiv(initial_balance as int, 1000) > 100 {
            tdiv(initial_balance as int, 1000)
        } else {
            100
        }) <= i128::MAX,
    ensures
        ok == rapid_supply_withdraw_holds(
            initial_balance as int,
            final_balance as int,
            a_token_balance as int,
        ),
{
    let total_value = final_balance + a_token_balance;
    let thousandth = initial_balance / 1000;
    let max_gain = if thousandth > 100 {
        thousandth
    } else {
        100
    };
    total_value <= initial_balance + max_gain
}

/// The amount each rapid borrow uses: 5% of available liquidity; `None`
/// when there is none or that is nothing.
pub fn rapid_borrow_amount(available: i128) -> (r: Option<u128>)
    ensures
        r == (if available <= 0 || available / 20 == 0 {
            None
        } else {
            Some((available / 20) as u128)
        }),
{
    if available <= 0 {
        return None;
    }
    let amount = (available as u128) / 20;
    if amount == 0 {
        None
    } else {
        Some(amount)
    }
}

/// After rapid borrow and repay cycles the user lost at most 1% of their
/// initial underlying (at least 1000) to interest.
pub open spec fn rapid_borrow_repay_holds(initial_underlying: int, final_underlying: int) -> bool {
    let max_loss = if tdiv(initial_underlying, 100) > 1000 {
        tdiv(initial_underlying, 100)
    } else {
        1000
    };
    final_underlying >= initial_underlying - max_loss
}

/// Check the outcome of rapid borrow and repay cycles.
pub fn rapid_borrow_repay_ok(initial_underlying: i128, final_underlying: i128) -> (ok: bool)
    requires
        initial_underlying - (if tdiv(initial_underlying as int, 100) > 1000 {
            tdiv(initial_underlying as int, 100)
        } else {
            1000
        }) >= i128::MIN,
    ensures
        ok == rapid_borrow_repay_holds(initial_underlying as int, final_underlying as int),
{
    let hundredth = initial_underlying / 100;
    let max_loss = if hundredth > 1000 {
        hundredth
    } else {
        1000
    };
    final_underlying >= initial_underlying - max_loss
}

/// A first-depositor attack left the attacker at most 1% (at least 1000)
/// better off, counting the donation back, and a victim depositing more
/// than dust got shares.
pub open spec fn first_depositor_attack_holds(
    attacker_initial: int,
    attacker_final: int,
    donation: int,
    victim_deposit: int,
    victim_shares_received: int,
) -> bool {
    let max_profit = if tdiv(attacker_initial, 100) > 1000 {
        tdiv(attacker_initial, 100)
    } else {
        1000
    };
    &&& attacker_final - attacker_initial + ((donation as u128) as i128) <= max_profit
    &&& victim_deposit > DUST_THRESHOLD ==> victim_shares_received > 0
}

/// Check the outcome of a first-depositor attack.
pub fn first_depositor_attack_ok(
    attacker_initial: i128,
    attacker_final: i128,
    donation: u128,
    victim_deposit: u128,
    victim_shares_received: i128,
) -> (ok: bool)
    requires
        i128::MIN <= attacker_final - attacker_initial <= i128::MAX,
        i128::MIN <= attacker_final - attacker_initial + (donation as i128) <= i128::MAX,
    ensures
        ok == first_depositor_attack_holds(
            attacker_initial as int,
            attacker_final as int,
            donation as int,
            victim_deposit as int,
            victim_shares_received as int,
        ),
{
    let hundredth = attacker_initial / 100;
    let max_profit = if hundredth > 1000 {
        hundredth
    } else {
        1000
    };
    let attacker_profit = attacker_final - attacker_initial + donation as i128;
    if attacker_profit > max_profit {
        return false;
    }
    victim_deposit <= DUST_THRESHOLD || victim_shares_received > 0
}

/// A donation left the aToken supply unchanged and raised the pool balance
/// by exactly the donation.
pub fn donation_outcome_ok(
    total_supply_before: i128,
    total_supply_after: i128,
    pool_balance_before: i128,
    pool_balance_after: i128,
    donation: u128,
) -> (ok: bool)
    requires
        total_supply_before == total_supply_after ==> i128::MIN <= pool_balance_before + (
        donation as i128) <= i128::MAX,
    ensures
        ok == (total_supply_before == total_supply_after && pool_balance_after
            == pool_balance_before + (donation as i128)),
{
    if total_supply_before != total_supply_after {
        return false;
    }
    pool_balance_after == pool_balance_before + donation as i128
}

/// The user who deposits after a donation: the attacker's successor among
/// eight.
pub fn donation_test_user(attacker_idx: u8) -> (u: u8)
    requires
        attacker_idx < u8::MAX,
    ensures
        u == (attacker_idx + 1) % 8,
{
    (attacker_idx + 1) % 8
}

/// A deposit of more than dust must bring shares.
pub fn deposit_shares_ok(deposit: u128, shares_received: i128) -> (ok: bool)
    ensures
        ok == (deposit > DUST_THRESHOLD ==> shares_received > 0),
{
    deposit <= DUST_THRESHOLD || shares_received > 0
}

/// The addresses other than `user`.
pub open spec fn other_than(user: u64) -> spec_fn(u64) -> bool {
    |a: u64| a != user
}

/// A list after adding or removing an address: adding appends it unless it
/// is already there; removing drops every occurrence.
pub open spec fn edited_list(list: Seq<u64>, user: u64, add: bool) -> Seq<u64> {
    if add {
        if list.contains(user) {
            list
        } else {
            list.push(user)
        }
    } else {
        list.filter(other_than(user))
    }
}

/// Add an address to an access list (if absent) or remove it (everywhere).
/// Addresses are numbered.
pub fn edit_address_list(list: &Vec<u64>, user: u64, add: bool) -> (r: Vec<u64>)
    ensures
        r@ == edited_list(list@, user, add),
{
    if add {
        let mut found = false;
        let mut i: usize = 0;
        while i < list.len()
            invariant
                i <= list@.len(),
                found == (exists|k: int| 0 <= k < i && #[trigger] list@[k] == user),
            decreases list@.len() - i,
        {
            if list[i] == user {
                found = true;
            }
            i = i + 1;
        }
        assert(found == list@.contains(user));
        let mut out: Vec<u64> = Vec::new();
        let mut k: usize = 0;
        while k < list.len()
            invariant
                k <= list@.len(),
                out@ == list@.subrange(0, k as int),
            decreases list@.len() - k,
        {
            out.push(list[k]);
            k = k + 1;
        }
        assert(out@ =~= list@);
        if !found {
            out.push(user);
        }
        out
    } else {
        let mut out: Vec<u64> = Vec::new();
        let mut i: usize = 0;
        while i < list.len()
            invariant
                i <= list@.len(),
                out@ == list@.subrange(0, i as int).filter(other_than(user)),
            decreases list@.len() - i,
        {
            proof {
                list@.subrange(0, i as int).lemma_filter_push(list@[i as int], other_than(user));
                assert(list@.subrange(0, i + 1) =~= list@.subrange(0, i as int).push(list@[i as int]));
            }
            if list[i] != user {
                out.push(list[i]);
            }
            i = i + 1;
        }
        assert(list@.subrange(0, list@.len() as int) =~= list@);
        out
    }
}

/// Adding an address puts it on the list, removing takes it off, and adding
/// an address already there changes nothing.
pub proof fn lemma_edit_address_list(list: Seq<u64>, user: u64)
    ensures
        edited_list(list, user, true).contains(user),
        !edited_list(list, user, false).contains(user),
        list.contains(user) ==> edited_list(list, user, true) == list,
        edited_list(edited_list(list, user, true), user, true) == edited_list(list, user, true),
{
    let added = edited_list(list, user, true);
    if !list.contains(user) {
        assert(added[list.len() as int] == user);
    }
    let removed = edited_list(list, user, false);
    if removed.contains(user) {
        let k = choose|k: int| 0 <= k < removed.len() && removed[k] == user;
        list.lemma_filter_pred(other_than(user), k);
    }
}

/// An executor amount drawn from a positive balance at no more than 100% is
/// at least 1 and at most the balance (or 1 when the balance is smaller).
pub proof fn lemma_percent_amount_bounds(balance: int, percent: int)
    requires
        balance > 0,
        0 <= percent <= 100,
    ensures
        1 <= percent_amount_of(balance, percent) <= (if balance >= 1 {
            balance
        } else {
            1
        }),
{
    assert(balance * percent / 100 <= balance) by (nonlinear_arith)
        requires
            balance > 0,
            0 <= percent <= 100,
    ;
    assert(balance * percent / 100 >= 0) by (nonlinear_arith)
        requires
            balance > 0,
            0 <= percent <= 100,
    ;
}

/// A liquidation never covers more than the close factor of the debt.
pub proof fn lemma_cover_within_close_factor(user_debt: int, amount_percent: int)
    requires
        user_debt > 0,
        0 <= amount_percent,
    ensures
        min(percent_amount_of(user_debt, amount_percent), close_factor_cap(user_debt))
            <= user_debt / 2,
{
}

} // verus!
