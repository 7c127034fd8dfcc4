//! Generation of fuzz inputs from raw fuzzer bytes: reserve configurations,
//! prices, and an operation sequence steered by the pool simulation (supplies
//! first, then categories weighted by the phase of the run and by what the
//! simulated state makes likely to succeed).
//!
//! The bytes are read through `arbitrary::Unstructured`.  What one draw
//! returns, and the bytes it leaves, is named (`draw_u8` and its siblings)
//! over the bytes left and the range; each generator states its result as
//! the `gen_*` function of the bytes it started from, which threads those
//! draws in order and makes the choices the simulated state dictates.  The
//! shape predicates beside them say what holds of every outcome.
use vstd::prelude::*;
use arbitrary::Unstructured;
use crate::common::constants::{DUST_THRESHOLD, MAX_PRICE, MIN_PRICE, RAY};
use crate::common::operations::{AssetConfig, FlashLoanReceiverType, Input, Operation};
use crate::common::simulation::{
    first_argmin_where, last_argmax, SimView, SimulatedState, NUM_ASSETS, NUM_USERS,
};

verus! {

/// The fuzzer's byte source.
#[verifier::external_type_specification]
#[verifier::external_body]
pub struct ExUnstructured<'a>(arbitrary::Unstructured<'a>);

/// The error a draw may report.
#[verifier::external_type_specification]
#[verifier::external_body]
pub struct ExArbitraryError(arbitrary::Error);

/// The bytes a byte source has not handed out yet.
pub uninterp spec fn unstructured_bytes(u: Unstructured) -> Seq<u8>;

/// What `Unstructured::int_in_range` on `u8` returns from these bytes and
/// range, and the bytes it leaves.
pub uninterp spec fn draw_u8(bytes: Seq<u8>, lo: u8, hi: u8) -> (u8, Seq<u8>);

/// What `Unstructured::int_in_range` on `u32` returns from these bytes and
/// range, and the bytes it leaves.
pub uninterp spec fn draw_u32(bytes: Seq<u8>, lo: u32, hi: u32) -> (u32, Seq<u8>);

/// What `Unstructured::int_in_range` on `i16` returns from these bytes and
/// range, and the bytes it leaves.
pub uninterp spec fn draw_i16(bytes: Seq<u8>, lo: i16, hi: i16) -> (i16, Seq<u8>);

/// What `Unstructured::int_in_range` on `u128` returns from these bytes and
/// range, and the bytes it leaves.
pub uninterp spec fn draw_u128(bytes: Seq<u8>, lo: u128, hi: u128) -> (u128, Seq<u8>);

/// What `Unstructured::int_in_range` on `usize` returns from these bytes and
/// range, and the bytes it leaves.
pub uninterp spec fn draw_usize(bytes: Seq<u8>, lo: usize, hi: usize) -> (usize, Seq<u8>);

/// What `Unstructured::arbitrary::<bool>` returns from these bytes, and the
/// bytes it leaves.
pub uninterp spec fn draw_bool(bytes: Seq<u8>) -> (bool, Seq<u8>);

/// `Unstructured::int_in_range` on `u8`: it panics on an empty range (ruled
/// out here) and otherwise always succeeds with a value of the range.  The
/// value and the bytes left depend on the bytes and the range alone
/// (`draw_u8`): the call reads big-endian bytes from the front and reduces
/// them into the range.
#[verifier::external_body]
fn int_in_range_u8(u: &mut Unstructured, lo: u8, hi: u8) -> (r: Result<u8, arbitrary::Error>)
    requires
        lo <= hi,
    ensures
        r is Ok,
        r matches Ok(v) ==> lo <= v <= hi,
        r matches Ok(v) ==> (v, unstructured_bytes(*final(u))) == draw_u8(unstructured_bytes(*old(u)), lo, hi),
{
    u.int_in_range(lo..=hi)
}

/// `Unstructured::int_in_range` on `u32`: it panics on an empty range (ruled
/// out here) and otherwise always succeeds with a value of the range.  The
/// value and the bytes left depend on the bytes and the range alone
/// (`draw_u32`).
#[verifier::external_body]
fn int_in_range_u32(u: &mut Unstructured, lo: u32, hi: u32) -> (r: Result<u32, arbitrary::Error>)
    requires
        lo <= hi,
    ensures
        r is Ok,
        r matches Ok(v) ==> lo <= v <= hi,
        r matches Ok(v) ==> (v, unstructured_bytes(*final(u))) == draw_u32(unstructured_bytes(*old(u)), lo, hi),
{
    u.int_in_range(lo..=hi)
}

/// `Unstructured::int_in_range` on `i16`: it panics on an empty range (ruled
/// out here) and otherwise always succeeds with a value of the range.  The
/// value and the bytes left depend on the bytes and the range alone
/// (`draw_i16`).
#[verifier::external_body]
fn int_in_range_i16(u: &mut Unstructured, lo: i16, hi: i16) -> (r: Result<i16, arbitrary::Error>)
    requires
        lo <= hi,
    ensures
        r is Ok,
        r matches Ok(v) ==> lo <= v <= hi,
        r matches Ok(v) ==> (v, unstructured_bytes(*final(u))) == draw_i16(unstructured_bytes(*old(u)), lo, hi),
{
    u.int_in_range(lo..=hi)
}

/// `Unstructured::int_in_range` on `u128`: it panics on an empty range
/// (ruled out here) and otherwise always succeeds with a value of the range.
/// The value and the bytes left depend on the bytes and the range alone
/// (`draw_u128`).
#[verifier::external_body]
fn int_in_range_u128(u: &mut Unstructured, lo: u128, hi: u128) -> (r: Result<u128, arbitrary::Error>)
    requires
        lo <= hi,
    ensures
        r is Ok,
        r matches Ok(v) ==> lo <= v <= hi,
        r matches Ok(v) ==> (v, unstructured_bytes(*final(u))) == draw_u128(unstructured_bytes(*old(u)), lo, hi),
{
    u.int_in_range(lo..=hi)
}

/// `Unstructured::int_in_range` on `usize`: it panics on an empty range
/// (ruled out here) and otherwise always succeeds with a value of the range.
/// The call reads at most as many bytes as the range's width needs, so for
/// a width that fits in 32 bits (all this library asks for) the value and
/// the bytes left depend on the bytes and the range alone, on any machine
/// (`draw_usize`).
#[verifier::external_body]
fn int_in_range_usize(u: &mut Unstructured, lo: usize, hi: usize) -> (r: Result<usize, arbitrary::Error>)
    requires
        lo <= hi,
        hi - lo <= u32::MAX,
    ensures
        r is Ok,
        r matches Ok(v) ==> lo <= v <= hi,
        r matches Ok(v) ==> (v, unstructured_bytes(*final(u))) == draw_usize(unstructured_bytes(*old(u)), lo, hi),
{
    u.int_in_range(lo..=hi)
}

/// `Unstructured::arbitrary::<bool>`: it reads one byte (zero once the bytes
/// run out), keeps its lowest bit and always succeeds.  The value and the
/// bytes left depend on the bytes alone (`draw_bool`).
#[verifier::external_body]
fn arbitrary_bool(u: &mut Unstructured) -> (r: Result<bool, arbitrary::Error>)
    ensures
        r matches Ok(v) && (v, unstructured_bytes(*final(u))) == draw_bool(unstructured_bytes(*old(u))),
{
    u.arbitrary::<bool>()
}

// ---------------------------------------------------------------------------
// Receivers and reserve configurations
// ---------------------------------------------------------------------------

/// The flash-loan receiver a roll in `0..=5` selects.
pub open spec fn receiver_for(roll: u8) -> FlashLoanReceiverType {
    if roll == 0 {
        FlashLoanReceiverType::Standard
    } else if roll == 1 {
        FlashLoanReceiverType::Reentrant
    } else if roll == 2 {
        FlashLoanReceiverType::ReentrantRepayLiquidation
    } else if roll == 3 {
        FlashLoanReceiverType::NonRepaying
    } else if roll == 4 {
        FlashLoanReceiverType::StateManipulating
    } else {
        FlashLoanReceiverType::OracleManipulating
    }
}

/// The flash-loan receiver a roll selects: the roll counts through the
/// receiver types in order, anything from 5 on meaning the
/// oracle-manipulating one.
pub fn receiver_type_for(roll: u8) -> (t: FlashLoanReceiverType)
    ensures
        t == receiver_for(roll),
{
    if roll == 0 {
        FlashLoanReceiverType::Standard
    } else if roll == 1 {
        FlashLoanReceiverType::Reentrant
    } else if roll == 2 {
        FlashLoanReceiverType::ReentrantRepayLiquidation
    } else if roll == 3 {
        FlashLoanReceiverType::NonRepaying
    } else if roll == 4 {
        FlashLoanReceiverType::StateManipulating
    } else {
        FlashLoanReceiverType::OracleManipulating
    }
}

/// The receiver type drawn from `b`, and the bytes left.
pub open spec fn gen_receiver(b: Seq<u8>) -> (FlashLoanReceiverType, Seq<u8>) {
    let (roll, b) = draw_u8(b, 0, 5);
    (receiver_for(roll), b)
}

/// Draw a flash-loan receiver type.
pub fn generate_receiver_type(u: &mut Unstructured) -> (r: Result<FlashLoanReceiverType, arbitrary::Error>)
    ensures
        r matches Ok(t) && (t, unstructured_bytes(*final(u))) == gen_receiver(unstructured_bytes(*old(u))),
{
    let roll = int_in_range_u8(u, 0, 5)?;
    Ok(receiver_type_for(roll))
}

/// The ranges a generated reserve configuration lies in.
pub open spec fn config_in_range(c: AssetConfig) -> bool {
    &&& 1000 <= c.ltv <= 7500
    &&& c.ltv + 500 <= c.liquidation_threshold <= 9000
    &&& 100 <= c.liquidation_bonus <= 1500
    &&& c.reserve_factor <= 3000
    &&& c.base_rate <= RAY / 100
    &&& RAY / 100 <= c.slope1 <= RAY / 10
    &&& RAY / 10 <= c.slope2 <= RAY
    &&& RAY / 2 <= c.optimal_utilization <= RAY * 9 / 10
    &&& c.supply_cap == 0 || 1000 <= c.supply_cap <= 1_000_000
    &&& c.borrow_cap == 0 || 500 <= c.borrow_cap <= 500_000
}

/// The reserve configuration drawn from `b`, and the bytes left: LTV,
/// liquidation threshold (from 5 points above the LTV), bonus, reserve
/// factor, base rate, both slopes and the optimal utilization in turn, then
/// a flag and a supply cap when it is set, a flag and a borrow cap when it
/// is set, and whether flash loans are enabled.
pub open spec fn gen_config(b: Seq<u8>) -> (AssetConfig, Seq<u8>) {
    let (ltv, b) = draw_u32(b, 1000, 7500);
    let (liquidation_threshold, b) = draw_u32(b, (ltv + 500) as u32, 9000);
    let (liquidation_bonus, b) = draw_u32(b, 100, 1500);
    let (reserve_factor, b) = draw_u32(b, 0, 3000);
    let (base_rate, b) = draw_u128(b, 0, RAY / 100);
    let (slope1, b) = draw_u128(b, RAY / 100, RAY / 10);
    let (slope2, b) = draw_u128(b, RAY / 10, RAY);
    let (optimal_utilization, b) = draw_u128(b, RAY / 2, (RAY * 9 / 10) as u128);
    let (has_supply_cap, b) = draw_bool(b);
    let (supply_cap, b) = if has_supply_cap {
        draw_u128(b, 1000, 1_000_000)
    } else {
        (0u128, b)
    };
    let (has_borrow_cap, b) = draw_bool(b);
    let (borrow_cap, b) = if has_borrow_cap {
        draw_u128(b, 500, 500_000)
    } else {
        (0u128, b)
    };
    let (flashloan_enabled, b) = draw_bool(b);
    (
        AssetConfig {
            ltv,
            liquidation_threshold,
            liquidation_bonus,
            reserve_factor,
            base_rate,
            slope1,
            slope2,
            optimal_utilization,
            supply_cap,
            borrow_cap,
            flashloan_enabled,
        },
        b,
    )
}

/// Draw a reserve configuration: LTV 10-75%, liquidation threshold at
/// least 5 points above it and at most 90%, bonus 1-15%, reserve factor at
/// most 30%, rate-strategy parameters in their ranges, and optional supply
/// and borrow caps.
pub fn generate_asset_config(u: &mut Unstructured) -> (r: Result<AssetConfig, arbitrary::Error>)
    ensures
        r matches Ok(c) && config_in_range(c) && (c, unstructured_bytes(*final(u))) == gen_config(
            unstructured_bytes(*old(u)),
        ),
{
    let ltv = int_in_range_u32(u, 1000, 7500)?;
    let liquidation_threshold = int_in_range_u32(u, ltv + 500, 9000)?;
    let liquidation_bonus = int_in_range_u32(u, 100, 1500)?;
    let reserve_factor = int_in_range_u32(u, 0, 3000)?;
    let base_rate = int_in_range_u128(u, 0, RAY / 100)?;
    let slope1 = int_in_range_u128(u, RAY / 100, RAY / 10)?;
    let slope2 = int_in_range_u128(u, RAY / 10, RAY)?;
    let optimal_utilization = int_in_range_u128(u, RAY / 2, RAY * 9 / 10)?;
    let supply_cap = if arbitrary_bool(u)? {
        int_in_range_u128(u, 1000, 1_000_000)?
    } else {
        0
    };
    let borrow_cap = if arbitrary_bool(u)? {
        int_in_range_u128(u, 500, 500_000)?
    } else {
        0
    };
    let flashloan_enabled = arbitrary_bool(u)?;
    Ok(
        AssetConfig {
            ltv,
            liquidation_threshold,
            liquidation_bonus,
            reserve_factor,
            base_rate,
            slope1,
            slope2,
            optimal_utilization,
            supply_cap,
            borrow_cap,
            flashloan_enabled,
        },
    )
}


// ---------------------------------------------------------------------------
// Operations by category
// ---------------------------------------------------------------------------

/// The simulated entries stay below this during generation (at most 25
/// steps, each at most doubling the largest entry from the initial balance).
pub const SIM_BOUND: u128 = 33_554_432_000_000_000_000_000;

/// The kinds of operation the generator chooses among.
#[derive(Clone, Copy, Debug, PartialEq, Eq, Structural)]
pub enum OperationCategory {
    Supply,
    Withdraw,
    Borrow,
    Repay,
    Liquidation,
    FlashLoan,
    Oracle,
    Environmental,
    EdgeCase,
    Adversarial,
    Admin,
}

/// The largest table entry for which every query the generator makes stays
/// within u128: sums of a user's four balances times 10,000 (health factors,
/// safe-withdrawal checks) and amounts times a percentage of up to 255.  It
/// is `u128::MAX / 1_000_000`, below the tightest of those limits (about
/// `u128::MAX / 40_000`, four balances times 10,000).
pub const QUERY_BOUND: u128 = 340_282_366_920_938_463_463_374_607_431_768;

/// The simulated state the generator may consult: tables of the expected
/// sizes and no entry above `QUERY_BOUND`.  Every state `generate_input`
/// passes in meets this with room to spare (its entries stay below
/// `SIM_BOUND`).
pub open spec fn sim_ready(s: SimView) -> bool {
    s.wf() && s.bounded(QUERY_BOUND as int)
}

/// The last position in `0..n` where `f` is largest.
pub open spec fn argmax_last(f: spec_fn(int) -> int, n: int) -> int {
    choose|r: int| last_argmax(f, n, r)
}

/// The first position in `0..n` where `p` holds.
pub open spec fn first_index(p: spec_fn(int) -> bool, n: int) -> int {
    choose|r: int| crate::common::simulation::first_where(p, n, r)
}

/// The first position in `0..n` where `p` holds and `f` is smallest among
/// those positions.
pub open spec fn argmin_first(p: spec_fn(int) -> bool, f: spec_fn(int) -> int, n: int) -> int {
    choose|r: int| first_argmin_where(p, f, n, r)
}

/// A last maximum is unique.
pub proof fn lemma_argmax_last_is(f: spec_fn(int) -> int, n: int, r: int)
    requires
        last_argmax(f, n, r),
    ensures
        argmax_last(f, n) == r,
{
    let c = argmax_last(f, n);
    assert(last_argmax(f, n, c));
    if c < r {
        assert(f(r) < f(c));
        assert(f(c) <= f(r));
    } else if r < c {
        assert(f(c) < f(r));
        assert(f(r) <= f(c));
    }
}

/// A first position satisfying a predicate is unique.
pub proof fn lemma_first_index_is(p: spec_fn(int) -> bool, n: int, r: int)
    requires
        crate::common::simulation::first_where(p, n, r),
    ensures
        first_index(p, n) == r,
{
    let c = first_index(p, n);
    assert(crate::common::simulation::first_where(p, n, c));
    if c < r {
        assert(p(c));
        assert(!p(c));
    } else if r < c {
        assert(p(r));
        assert(!p(r));
    }
}

/// A first minimum among the positions satisfying a predicate is unique.
pub proof fn lemma_argmin_first_is(p: spec_fn(int) -> bool, f: spec_fn(int) -> int, n: int, r: int)
    requires
        first_argmin_where(p, f, n, r),
    ensures
        argmin_first(p, f, n) == r,
{
    let c = argmin_first(p, f, n);
    assert(first_argmin_where(p, f, n, c));
    assert(p(c) && p(r));
    if c < r {
        assert(f(c) <= f(r));
        assert(f(r) < f(c));
    } else if r < c {
        assert(f(r) <= f(c));
        assert(f(c) < f(r));
    }
}

/// `user` holds the most underlying of `asset` (the last one on ties).
pub open spec fn richest_in(s: SimView, asset: int, user: u8) -> bool {
    last_argmax(|u: int| s.und(u, asset) as int, NUM_USERS as int, user as int)
}

/// A supply by the user with the most underlying of a random asset, of 40
/// to 80%, for themselves or for a random recipient.
pub open spec fn supply_shape(s: SimView, op: Operation) -> bool {
    match op {
        Operation::Supply { user_idx, asset_idx, amount_percent } => asset_idx <= 3 && richest_in(
            s,
            asset_idx as int,
            user_idx,
        ) && 40 <= amount_percent <= 80,
        Operation::SupplyOnBehalf { user_idx, recipient_idx, asset_idx, amount_percent } =>
            asset_idx <= 3 && richest_in(s, asset_idx as int, user_idx) && recipient_idx <= 7 && 40
            <= amount_percent <= 80,
        _ => false,
    }
}

/// The largest withdrawal percentage offered to `user` for `asset`: 90%
/// without debt; with debt, what keeps the simulated health factor at 1.2,
/// as a share of the asset's collateral, between 10% and 50%.
pub open spec fn withdraw_cap(s: SimView, user: int, asset: int) -> int {
    let collateral = s.coll(user, asset) as int;
    if s.has_dbt(user) && collateral > 0 {
        let min_needed = s.debt_sum(user) * 10000 / 7500 * 12 / 10;
        let withdrawable = if s.coll_sum(user) > min_needed {
            s.coll_sum(user) - min_needed
        } else {
            0
        };
        let max_this = if withdrawable <= collateral {
            withdrawable
        } else {
            collateral
        };
        let pct = max_this * 100 / collateral;
        if pct > 50 {
            50
        } else if pct < 10 {
            10
        } else {
            pct
        }
    } else {
        90
    }
}

/// `user` holds the most collateral in `asset` (the last one on ties).
pub open spec fn top_collateral_in(s: SimView, asset: int, user: u8) -> bool {
    last_argmax(|u: int| s.coll(u, asset) as int, NUM_USERS as int, user as int)
}

/// A withdrawal by the user with the most collateral in a random asset, of
/// 10% up to the offered cap; a full withdrawal only without debt.
pub open spec fn withdraw_shape(s: SimView, op: Operation) -> bool {
    match op {
        Operation::Withdraw { user_idx, asset_idx, amount_percent } => asset_idx <= 3
            && top_collateral_in(s, asset_idx as int, user_idx) && 10 <= amount_percent
            <= withdraw_cap(s, user_idx as int, asset_idx as int),
        Operation::WithdrawAll { user_idx, asset_idx } => asset_idx <= 3 && top_collateral_in(
            s,
            asset_idx as int,
            user_idx,
        ) && !s.has_dbt(user_idx as int),
        Operation::WithdrawToRecipient { user_idx, recipient_idx, asset_idx, amount_percent } =>
            asset_idx <= 3 && top_collateral_in(s, asset_idx as int, user_idx) && recipient_idx <= 7
            && 10 <= amount_percent <= withdraw_cap(s, user_idx as int, asset_idx as int),
        _ => false,
    }
}

/// `user` holds the most collateral overall and `asset` has the most pool
/// liquidity (the last ones on ties).
pub open spec fn borrow_target(s: SimView, user: u8, asset: u8) -> bool {
    &&& last_argmax(|u: int| s.coll_sum(u), NUM_USERS as int, user as int)
    &&& last_argmax(|a: int| s.pool(a) as int, NUM_ASSETS as int, asset as int)
}

/// The largest borrow percentage: 40% above a simulated health factor of
/// 2, else 25%.
pub open spec fn borrow_cap(s: SimView, user: int) -> int {
    if s.hf(user) > 20000 {
        40
    } else {
        25
    }
}

/// A borrow by the user with the most collateral from the asset with the
/// most liquidity, of 15% up to the cap, for themselves or a recipient.
pub open spec fn borrow_shape(s: SimView, op: Operation) -> bool {
    match op {
        Operation::Borrow { user_idx, asset_idx, amount_percent } => borrow_target(
            s,
            user_idx,
            asset_idx,
        ) && 15 <= amount_percent <= borrow_cap(s, user_idx as int),
        Operation::BorrowToRecipient { user_idx, recipient_idx, asset_idx, amount_percent } =>
            borrow_target(s, user_idx, asset_idx) && recipient_idx <= 7 && 15 <= amount_percent
            <= borrow_cap(s, user_idx as int),
        _ => false,
    }
}

/// The asset a repayment picks: the first asset with debt, or any asset
/// when nobody owes anything.
pub open spec fn repay_asset(s: SimView, asset: u8) -> bool {
    if exists|a: int| 0 <= a < NUM_ASSETS && #[trigger] s.asset_has_debt(a) {
        crate::common::simulation::first_where(
            |a: int| s.asset_has_debt(a),
            NUM_ASSETS as int,
            asset as int,
        )
    } else {
        asset <= 3
    }
}

/// The payer of a repayment on behalf: the first user with more than dust
/// of the asset, or user 0.
pub open spec fn funded_payer(s: SimView, asset: int, payer: u8) -> bool {
    if exists|p: int| 0 <= p < NUM_USERS && #[trigger] s.und(p, asset) > DUST_THRESHOLD {
        crate::common::simulation::first_where(
            |p: int| s.und(p, asset) > DUST_THRESHOLD,
            NUM_USERS as int,
            payer as int,
        )
    } else {
        payer == 0
    }
}

/// A repayment for the user with the most debt in the picked asset: by that
/// user (30-100%, or all) when they hold more than dust of it, else by a
/// funded payer on their behalf.
pub open spec fn repay_shape(s: SimView, op: Operation) -> bool {
    match op {
        Operation::Repay { user_idx, asset_idx, amount_percent } => repay_asset(s, asset_idx)
            && last_argmax(|u: int| s.dbt(u, asset_idx as int) as int, NUM_USERS as int, user_idx as int)
            && s.und(user_idx as int, asset_idx as int) > DUST_THRESHOLD && 30 <= amount_percent <= 100,
        Operation::RepayAll { user_idx, asset_idx } => repay_asset(s, asset_idx) && last_argmax(
            |u: int| s.dbt(u, asset_idx as int) as int,
            NUM_USERS as int,
            user_idx as int,
        ) && s.und(user_idx as int, asset_idx as int) > DUST_THRESHOLD,
        Operation::RepayOnBehalf { payer_idx, borrower_idx, asset_idx, amount_percent } =>
            repay_asset(s, asset_idx) && last_argmax(
            |u: int| s.dbt(u, asset_idx as int) as int,
            NUM_USERS as int,
            borrower_idx as int,
        ) && s.und(borrower_idx as int, asset_idx as int) <= DUST_THRESHOLD && funded_payer(
            s,
            asset_idx as int,
            payer_idx,
        ) && 30 <= amount_percent <= 100,
        _ => false,
    }
}

/// The liquidation target: the user with both debt and collateral at the
/// lowest simulated health factor (the first on ties), or any user when
/// there is none.
pub open spec fn liquidation_target(s: SimView, user: u8) -> bool {
    if exists|u: int| 0 <= u < NUM_USERS && #[trigger] s.has_dbt(u) && s.has_coll(u) {
        first_argmin_where(
            |u: int| s.has_dbt(u) && s.has_coll(u),
            |u: int| s.hf(u),
            NUM_USERS as int,
            user as int,
        )
    } else {
        user <= 7
    }
}

/// The first asset where `p` holds, or any asset when there is none.
pub open spec fn first_asset_or_any(p: spec_fn(int) -> bool, asset: u8) -> bool {
    if exists|a: int| 0 <= a < NUM_ASSETS && #[trigger] p(a) {
        crate::common::simulation::first_where(p, NUM_ASSETS as int, asset as int)
    } else {
        asset <= 3
    }
}

/// The target, collateral and debt assets of a liquidation: the target as
/// above, its first collateral asset above dust and its first debt asset.
pub open spec fn liquidation_parties(s: SimView, user: u8, collateral: u8, debt: u8) -> bool {
    &&& liquidation_target(s, user)
    &&& first_asset_or_any(|a: int| s.coll(user as int, a) > DUST_THRESHOLD, collateral)
    &&& first_asset_or_any(|a: int| s.dbt(user as int, a) > 0, debt)
}

/// A liquidation of the target by a random liquidator: a direct
/// liquidation (30-100%) only when the target is already below a simulated
/// health factor of 1, otherwise a created-then-liquidated position, a
/// multi-asset liquidation or a self-liquidation attempt.
pub open spec fn liquidation_shape(s: SimView, op: Operation) -> bool {
    match op {
        Operation::Liquidate { liquidator_idx, user_idx, collateral_idx, debt_idx, amount_percent } =>
            liquidator_idx <= 7 && liquidation_parties(s, user_idx, collateral_idx, debt_idx) && s.hf(
            user_idx as int,
        ) <= 10000 && 30 <= amount_percent <= 100,
        Operation::LiquidateReceiveAToken {
            liquidator_idx,
            user_idx,
            collateral_idx,
            debt_idx,
            amount_percent,
        } => liquidator_idx <= 7 && liquidation_parties(s, user_idx, collateral_idx, debt_idx)
            && s.hf(user_idx as int) <= 10000 && 30 <= amount_percent <= 100,
        Operation::CreateAndLiquidate { liquidator_idx, user_idx, collateral_idx, debt_idx } =>
            liquidator_idx <= 7 && liquidation_parties(s, user_idx, collateral_idx, debt_idx),
        Operation::MultiAssetLiquidation { liquidator_idx, user_idx, collateral_idx, debt_idx } =>
            liquidator_idx <= 7 && liquidation_parties(s, user_idx, collateral_idx, debt_idx),
        Operation::SelfLiquidationAttempt { user_idx, collateral_idx, debt_idx } =>
            liquidation_parties(s, user_idx, collateral_idx, debt_idx),
        _ => false,
    }
}

/// A flash loan of the asset with the most liquidity (20-80%) by a random
/// user, or of that asset and a random one (10-90% each).
pub open spec fn flash_loan_shape(s: SimView, op: Operation) -> bool {
    match op {
        Operation::FlashLoan { user_idx, asset_idx, amount_percent, .. } => user_idx <= 7
            && last_argmax(|a: int| s.pool(a) as int, NUM_ASSETS as int, asset_idx as int) && 20
            <= amount_percent <= 80,
        Operation::MultiAssetFlashLoan { user_idx, asset_indices, amount_percents, .. } =>
            user_idx <= 7 && last_argmax(
            |a: int| s.pool(a) as int,
            NUM_ASSETS as int,
            asset_indices[0] as int,
        ) && asset_indices[1] <= 3 && 10 <= amount_percents[0] <= 90 && 10 <= amount_percents[1]
            <= 90,
        _ => false,
    }
}

/// A price change of at most 30%, a price set to zero, two to five price
/// swings, or a stale price, on a random asset.
pub open spec fn oracle_shape(op: Operation) -> bool {
    match op {
        Operation::PriceChange { asset_idx, price_change_bps } => asset_idx <= 3 && -3000
            <= price_change_bps <= 3000,
        Operation::PriceToZero { asset_idx } => asset_idx <= 3,
        Operation::PriceVolatility { asset_idx, swings } => asset_idx <= 3 && 2 <= swings <= 5,
        Operation::OracleStale { asset_idx } => asset_idx <= 3,
        _ => false,
    }
}

/// A time warp of one second to 30 days, one to five years, a pause or
/// unpause (whichever changes the simulated state), or a collection of
/// reserves.
pub open spec fn environmental_shape(s: SimView, op: Operation) -> bool {
    match op {
        Operation::TimeWarp { seconds } => 1 <= seconds <= 2_592_000,
        Operation::ExtremeTimeWarp { years } => 1 <= years <= 5,
        Operation::PauseProtocol => !s.paused,
        Operation::UnpauseProtocol => s.paused,
        Operation::CollectProtocolReserves { asset_idx } => asset_idx <= 3,
        _ => false,
    }
}

/// Zero, dust (1-100 units) and maximal amounts, a bad-debt scenario, or a
/// flash loan (10-90%) while paused, for a random user and asset.
pub open spec fn edge_case_shape(op: Operation) -> bool {
    match op {
        Operation::ZeroAmountSupply { user_idx, asset_idx } => user_idx <= 7 && asset_idx <= 3,
        Operation::ZeroAmountBorrow { user_idx, asset_idx } => user_idx <= 7 && asset_idx <= 3,
        Operation::DustSupply { user_idx, asset_idx, dust_amount } => user_idx <= 7 && asset_idx
            <= 3 && 1 <= dust_amount <= 100,
        Operation::DustBorrow { user_idx, asset_idx, dust_amount } => user_idx <= 7 && asset_idx
            <= 3 && 1 <= dust_amount <= 100,
        Operation::MaxAmountSupply { user_idx, asset_idx } => user_idx <= 7 && asset_idx <= 3,
        Operation::MaxAmountBorrow { user_idx, asset_idx } => user_idx <= 7 && asset_idx <= 3,
        Operation::BadDebtScenario { user_idx, asset_idx } => user_idx <= 7 && asset_idx <= 3,
        Operation::FlashLoanWhilePaused { user_idx, asset_idx, amount_percent } => user_idx <= 7
            && asset_idx <= 3 && 10 <= amount_percent <= 90,
        _ => false,
    }
}

/// An attack pattern: rapid cycles (two to five), a sandwich, interest
/// accrual, a first-depositor or donation attack (1-50%), or borrowing to
/// the maximum then withdrawing; rapid borrowing is done by the user with the
/// most collateral.
pub open spec fn adversarial_shape(s: SimView, op: Operation) -> bool {
    match op {
        Operation::RapidSupplyWithdraw { user_idx, asset_idx, iterations } => user_idx <= 7
            && asset_idx <= 3 && 2 <= iterations <= 5,
        Operation::RapidBorrowRepay { user_idx, asset_idx, iterations } => last_argmax(
            |u: int| s.coll_sum(u),
            NUM_USERS as int,
            user_idx as int,
        ) && asset_idx <= 3 && 2 <= iterations <= 5,
        Operation::SandwichPriceChange { attacker_idx, victim_idx, asset_idx } => attacker_idx <= 7
            && victim_idx <= 7 && asset_idx <= 3,
        Operation::InterestAccrualExploit { user_idx, asset_idx } => user_idx <= 7 && asset_idx
            <= 3,
        Operation::FirstDepositorAttack { attacker_idx, victim_idx, asset_idx } => attacker_idx
            <= 7 && victim_idx <= 7 && asset_idx <= 3,
        Operation::DonationAttack { attacker_idx, asset_idx, donation_amount } => attacker_idx <= 7
            && asset_idx <= 3 && 1 <= donation_amount <= 50,
        Operation::BorrowMaxWithdrawAttempt { user_idx, supply_asset_idx, borrow_asset_idx } =>
            user_idx <= 7 && supply_asset_idx <= 3 && borrow_asset_idx <= 3,
        _ => false,
    }
}

/// A reserve reconfiguration (LTV 10-75%, threshold at least 5 points above
/// and at most 90%, bonus 1-15%), a supply cap up to a million or a borrow
/// cap up to half a million, a whitelist change, or a switch of the active or
/// frozen flag, on a random asset.
pub open spec fn admin_shape(op: Operation) -> bool {
    match op {
        Operation::UpdateReserveConfiguration {
            asset_idx,
            ltv,
            liquidation_threshold,
            liquidation_bonus,
        } => asset_idx <= 3 && 1000 <= ltv <= 7500 && ltv + 500 <= liquidation_threshold <= 9000
            && 100 <= liquidation_bonus <= 1500,
        Operation::SetReserveSupplyCap { asset_idx, cap } => asset_idx <= 3 && cap <= 1_000_000,
        Operation::SetReserveBorrowCap { asset_idx, cap } => asset_idx <= 3 && cap <= 500_000,
        Operation::SetReserveWhitelist { asset_idx, user_idx, .. } => asset_idx <= 3 && user_idx
            <= 7,
        Operation::SetReserveActive { asset_idx, .. } => asset_idx <= 3,
        Operation::SetReserveFrozen { asset_idx, .. } => asset_idx <= 3,
        _ => false,
    }
}

/// The operations a category produces from a simulated state.
pub open spec fn category_shape(s: SimView, category: OperationCategory, op: Operation) -> bool {
    match category {
        OperationCategory::Supply => supply_shape(s, op),
        OperationCategory::Withdraw => withdraw_shape(s, op),
        OperationCategory::Borrow => borrow_shape(s, op),
        OperationCategory::Repay => repay_shape(s, op),
        OperationCategory::Liquidation => liquidation_shape(s, op),
        OperationCategory::FlashLoan => flash_loan_shape(s, op),
        OperationCategory::Oracle => oracle_shape(op),
        OperationCategory::Environmental => environmental_shape(s, op),
        OperationCategory::EdgeCase => edge_case_shape(op),
        OperationCategory::Adversarial => adversarial_shape(s, op),
        OperationCategory::Admin => admin_shape(op),
    }
}

// ---------------------------------------------------------------------------
// Assembling an operation from what was drawn
// ---------------------------------------------------------------------------

/// The supply a draw makes: for the user themselves when the roll is at most
/// 3, else on behalf of the drawn recipient.
pub open spec fn supply_choice(user_idx: u8, asset_idx: u8, roll: u8, recipient_idx: u8, amount_percent: u8) -> Operation {
    if roll <= 3 {
        Operation::Supply { user_idx, asset_idx, amount_percent }
    } else {
        Operation::SupplyOnBehalf { user_idx, recipient_idx, asset_idx, amount_percent }
    }
}

/// The supply made from the chosen user and asset and the drawn roll,
/// recipient and percentage.
pub fn supply_op_from(user_idx: u8, asset_idx: u8, roll: u8, recipient_idx: u8, amount_percent: u8) -> (op: Operation)
    ensures
        op == supply_choice(user_idx, asset_idx, roll, recipient_idx, amount_percent),
{
    if roll <= 3 {
        Operation::Supply { user_idx, asset_idx, amount_percent }
    } else {
        Operation::SupplyOnBehalf { user_idx, recipient_idx, asset_idx, amount_percent }
    }
}

/// The withdrawal a draw makes: a partial one on roll 0 (or roll 1 when the
/// user has debt), a full one on roll 1, else one to the drawn recipient.
pub open spec fn withdraw_choice(
    user_idx: u8,
    asset_idx: u8,
    has_debt: bool,
    roll: u8,
    recipient_idx: u8,
    amount_percent: u8,
) -> Operation {
    if roll == 0 || (roll == 1 && has_debt) {
        Operation::Withdraw { user_idx, asset_idx, amount_percent }
    } else if roll == 1 {
        Operation::WithdrawAll { user_idx, asset_idx }
    } else {
        Operation::WithdrawToRecipient { user_idx, recipient_idx, asset_idx, amount_percent }
    }
}

/// The withdrawal made from the chosen user and asset, whether the user has
/// debt, and the drawn roll, recipient and percentage.
pub fn withdraw_op_from(
    user_idx: u8,
    asset_idx: u8,
    has_debt: bool,
    roll: u8,
    recipient_idx: u8,
    amount_percent: u8,
) -> (op: Operation)
    ensures
        op == withdraw_choice(user_idx, asset_idx, has_debt, roll, recipient_idx, amount_percent),
{
    if roll == 0 || (roll == 1 && has_debt) {
        Operation::Withdraw { user_idx, asset_idx, amount_percent }
    } else if roll == 1 {
        Operation::WithdrawAll { user_idx, asset_idx }
    } else {
        Operation::WithdrawToRecipient { user_idx, recipient_idx, asset_idx, amount_percent }
    }
}

/// The borrow a draw makes: for the user themselves on rolls 0 and 1, else
/// paid out to the drawn recipient.
pub open spec fn borrow_choice(user_idx: u8, asset_idx: u8, roll: u8, recipient_idx: u8, amount_percent: u8) -> Operation {
    if roll <= 1 {
        Operation::Borrow { user_idx, asset_idx, amount_percent }
    } else {
        Operation::BorrowToRecipient { user_idx, recipient_idx, asset_idx, amount_percent }
    }
}

/// The borrow made from the chosen user and asset and the drawn roll,
/// recipient and percentage.
pub fn borrow_op_from(user_idx: u8, asset_idx: u8, roll: u8, recipient_idx: u8, amount_percent: u8) -> (op: Operation)
    ensures
        op == borrow_choice(user_idx, asset_idx, roll, recipient_idx, amount_percent),
{
    if roll <= 1 {
        Operation::Borrow { user_idx, asset_idx, amount_percent }
    } else {
        Operation::BorrowToRecipient { user_idx, recipient_idx, asset_idx, amount_percent }
    }
}

/// The repayment a draw makes: a partial one on rolls 0 and 1 and a full
/// one otherwise when the borrower holds funds; without funds, a payer
/// repays on the borrower's behalf.
pub open spec fn repay_choice(
    user_idx: u8,
    asset_idx: u8,
    has_funds: bool,
    roll: u8,
    payer_idx: u8,
    amount_percent: u8,
) -> Operation {
    if roll <= 1 && has_funds {
        Operation::Repay { user_idx, asset_idx, amount_percent }
    } else if has_funds {
        Operation::RepayAll { user_idx, asset_idx }
    } else {
        Operation::RepayOnBehalf { payer_idx, borrower_idx: user_idx, asset_idx, amount_percent }
    }
}

/// The repayment made from the chosen borrower, asset and payer, whether the
/// borrower holds funds, and the drawn roll and percentage.
pub fn repay_op_from(
    user_idx: u8,
    asset_idx: u8,
    has_funds: bool,
    roll: u8,
    payer_idx: u8,
    amount_percent: u8,
) -> (op: Operation)
    ensures
        op == repay_choice(user_idx, asset_idx, has_funds, roll, payer_idx, amount_percent),
{
    if roll <= 1 && has_funds {
        Operation::Repay { user_idx, asset_idx, amount_percent }
    } else if has_funds {
        Operation::RepayAll { user_idx, asset_idx }
    } else {
        Operation::RepayOnBehalf { payer_idx, borrower_idx: user_idx, asset_idx, amount_percent }
    }
}

/// The liquidation a draw makes: a direct one (roll 0) or one receiving
/// aTokens (roll 1) unless a healthy target favours creating the position
/// first; a create-then-liquidate on rolls up to 3; a multi-asset
/// liquidation on roll 4; else a self-liquidation attempt.
pub open spec fn liquidation_choice(
    liquidator_idx: u8,
    user_idx: u8,
    collateral_idx: u8,
    debt_idx: u8,
    favor_create: bool,
    roll: u8,
    amount_percent: u8,
) -> Operation {
    if roll == 0 && !favor_create {
        Operation::Liquidate { liquidator_idx, user_idx, collateral_idx, debt_idx, amount_percent }
    } else if roll == 1 && !favor_create {
        Operation::LiquidateReceiveAToken {
            liquidator_idx,
            user_idx,
            collateral_idx,
            debt_idx,
            amount_percent,
        }
    } else if roll <= 3 {
        Operation::CreateAndLiquidate { liquidator_idx, user_idx, collateral_idx, debt_idx }
    } else if roll == 4 {
        Operation::MultiAssetLiquidation { liquidator_idx, user_idx, collateral_idx, debt_idx }
    } else {
        Operation::SelfLiquidationAttempt { user_idx, collateral_idx, debt_idx }
    }
}

/// The liquidation made from the drawn liquidator, the chosen target and
/// assets, whether the target is healthy, and the drawn roll and percentage.
pub fn liquidation_op_from(
    liquidator_idx: u8,
    user_idx: u8,
    collateral_idx: u8,
    debt_idx: u8,
    favor_create: bool,
    roll: u8,
    amount_percent: u8,
) -> (op: Operation)
    ensures
        op == liquidation_choice(
            liquidator_idx,
            user_idx,
            collateral_idx,
            debt_idx,
            favor_create,
            roll,
            amount_percent,
        ),
{
    if roll == 0 && !favor_create {
        Operation::Liquidate { liquidator_idx, user_idx, collateral_idx, debt_idx, amount_percent }
    } else if roll == 1 && !favor_create {
        Operation::LiquidateReceiveAToken {
            liquidator_idx,
            user_idx,
            collateral_idx,
            debt_idx,
            amount_percent,
        }
    } else if roll <= 3 {
        Operation::CreateAndLiquidate { liquidator_idx, user_idx, collateral_idx, debt_idx }
    } else if roll == 4 {
        Operation::MultiAssetLiquidation { liquidator_idx, user_idx, collateral_idx, debt_idx }
    } else {
        Operation::SelfLiquidationAttempt { user_idx, collateral_idx, debt_idx }
    }
}

/// The flash loan a draw makes: of one asset on rolls 0 and 1, else of that
/// asset and the drawn second one.
pub open spec fn flash_loan_choice(
    receiver_type: FlashLoanReceiverType,
    asset_idx: u8,
    roll: u8,
    user_idx: u8,
    amount_percent: u8,
    second_asset: u8,
    second_percent: u8,
) -> Operation {
    if roll <= 1 {
        Operation::FlashLoan { user_idx, asset_idx, amount_percent, receiver_type }
    } else {
        Operation::MultiAssetFlashLoan {
            user_idx,
            asset_indices: [asset_idx, second_asset],
            amount_percents: [amount_percent, second_percent],
            receiver_type,
        }
    }
}

/// The flash loan made from the drawn receiver, the chosen asset, and the
/// drawn roll, user, percentages and second asset.
pub fn flash_loan_op_from(
    receiver_type: FlashLoanReceiverType,
    asset_idx: u8,
    roll: u8,
    user_idx: u8,
    amount_percent: u8,
    second_asset: u8,
    second_percent: u8,
) -> (op: Operation)
    ensures
        op == flash_loan_choice(
            receiver_type,
            asset_idx,
            roll,
            user_idx,
            amount_percent,
            second_asset,
            second_percent,
        ),
{
    if roll <= 1 {
        Operation::FlashLoan { user_idx, asset_idx, amount_percent, receiver_type }
    } else {
        Operation::MultiAssetFlashLoan {
            user_idx,
            asset_indices: [asset_idx, second_asset],
            amount_percents: [amount_percent, second_percent],
            receiver_type,
        }
    }
}

/// The oracle operation a draw makes: a price change on rolls 0 and 1, a
/// zero price on 2, a volatility sequence on 3, else a stale price.
pub open spec fn oracle_choice(roll: u8, asset_idx: u8, price_change_bps: i16, swings: u8) -> Operation {
    if roll <= 1 {
        Operation::PriceChange { asset_idx, price_change_bps }
    } else if roll == 2 {
        Operation::PriceToZero { asset_idx }
    } else if roll == 3 {
        Operation::PriceVolatility { asset_idx, swings }
    } else {
        Operation::OracleStale { asset_idx }
    }
}

/// The oracle operation made from the drawn roll, asset, change and swings.
pub fn oracle_op_from(roll: u8, asset_idx: u8, price_change_bps: i16, swings: u8) -> (op: Operation)
    ensures
        op == oracle_choice(roll, asset_idx, price_change_bps, swings),
{
    if roll <= 1 {
        Operation::PriceChange { asset_idx, price_change_bps }
    } else if roll == 2 {
        Operation::PriceToZero { asset_idx }
    } else if roll == 3 {
        Operation::PriceVolatility { asset_idx, swings }
    } else {
        Operation::OracleStale { asset_idx }
    }
}

/// The range of a time warp for a drawn span: up to an hour, a day, a week,
/// or 30 days.
pub open spec fn warp_range(span: u8) -> (u32, u32) {
    if span == 0 {
        (1, 3600)
    } else if span == 1 {
        (3600, 86400)
    } else if span == 2 {
        (86400, 604800)
    } else {
        (604800, 2592000)
    }
}

/// The range of a time warp for a drawn span.
pub fn warp_range_for(span: u8) -> (r: (u32, u32))
    ensures
        r == warp_range(span),
{
    if span == 0 {
        (1, 3600)
    } else if span == 1 {
        (3600, 86400)
    } else if span == 2 {
        (86400, 604800)
    } else {
        (604800, 2592000)
    }
}

/// The environmental operation a draw makes: a time warp on rolls up to 2,
/// an extreme one on 3, on 4 an unpause when paused and a pause otherwise,
/// else a collection of reserves.
pub open spec fn environmental_choice(roll: u8, paused: bool, seconds: u32, years: u8, asset_idx: u8) -> Operation {
    if roll <= 2 {
        Operation::TimeWarp { seconds }
    } else if roll == 3 {
        Operation::ExtremeTimeWarp { years }
    } else if roll == 4 {
        if paused {
            Operation::UnpauseProtocol
        } else {
            Operation::PauseProtocol
        }
    } else {
        Operation::CollectProtocolReserves { asset_idx }
    }
}

/// The environmental operation made from the drawn roll, the pause flag and
/// the drawn duration, years and asset.
pub fn environmental_op_from(roll: u8, paused: bool, seconds: u32, years: u8, asset_idx: u8) -> (op: Operation)
    ensures
        op == environmental_choice(roll, paused, seconds, years, asset_idx),
{
    if roll <= 2 {
        Operation::TimeWarp { seconds }
    } else if roll == 3 {
        Operation::ExtremeTimeWarp { years }
    } else if roll == 4 {
        if paused {
            Operation::UnpauseProtocol
        } else {
            Operation::PauseProtocol
        }
    } else {
        Operation::CollectProtocolReserves { asset_idx }
    }
}

/// The edge case a draw makes, by roll: zero-amount supply and borrow, dust
/// supply and borrow, maximal supply and borrow, a bad-debt scenario, else a
/// flash loan while paused.
pub open spec fn edge_case_choice(roll: u8, user_idx: u8, asset_idx: u8, dust_amount: u8, amount_percent: u8) -> Operation {
    if roll == 0 {
        Operation::ZeroAmountSupply { user_idx, asset_idx }
    } else if roll == 1 {
        Operation::ZeroAmountBorrow { user_idx, asset_idx }
    } else if roll == 2 {
        Operation::DustSupply { user_idx, asset_idx, dust_amount }
    } else if roll == 3 {
        Operation::DustBorrow { user_idx, asset_idx, dust_amount }
    } else if roll == 4 {
        Operation::MaxAmountSupply { user_idx, asset_idx }
    } else if roll == 5 {
        Operation::MaxAmountBorrow { user_idx, asset_idx }
    } else if roll == 6 {
        Operation::BadDebtScenario { user_idx, asset_idx }
    } else {
        Operation::FlashLoanWhilePaused { user_idx, asset_idx, amount_percent }
    }
}

/// The edge case made from the drawn roll, user, asset and amounts.
pub fn edge_case_op_from(roll: u8, user_idx: u8, asset_idx: u8, dust_amount: u8, amount_percent: u8) -> (op: Operation)
    ensures
        op == edge_case_choice(roll, user_idx, asset_idx, dust_amount, amount_percent),
{
    if roll == 0 {
        Operation::ZeroAmountSupply { user_idx, asset_idx }
    } else if roll == 1 {
        Operation::ZeroAmountBorrow { user_idx, asset_idx }
    } else if roll == 2 {
        Operation::DustSupply { user_idx, asset_idx, dust_amount }
    } else if roll == 3 {
        Operation::DustBorrow { user_idx, asset_idx, dust_amount }
    } else if roll == 4 {
        Operation::MaxAmountSupply { user_idx, asset_idx }
    } else if roll == 5 {
        Operation::MaxAmountBorrow { user_idx, asset_idx }
    } else if roll == 6 {
        Operation::BadDebtScenario { user_idx, asset_idx }
    } else {
        Operation::FlashLoanWhilePaused { user_idx, asset_idx, amount_percent }
    }
}

/// The attack a draw makes, by roll: rapid supply/withdraw cycles, rapid
/// borrow/repay cycles by the top borrower, a sandwich, an interest-accrual
/// exploit, a first-depositor attack, a donation, else borrowing to the
/// maximum then withdrawing.  `user_idx` is the user or attacker,
/// `victim_idx` the victim, `second_asset_idx` the borrowed asset of the
/// last pattern, and `count` the number of cycles or the donation.
pub open spec fn adversarial_choice(
    roll: u8,
    top_borrower: u8,
    user_idx: u8,
    victim_idx: u8,
    asset_idx: u8,
    second_asset_idx: u8,
    count: u8,
) -> Operation {
    if roll == 0 {
        Operation::RapidSupplyWithdraw { user_idx, asset_idx, iterations: count }
    } else if roll == 1 {
        Operation::RapidBorrowRepay { user_idx: top_borrower, asset_idx, iterations: count }
    } else if roll == 2 {
        Operation::SandwichPriceChange { attacker_idx: user_idx, victim_idx, asset_idx }
    } else if roll == 3 {
        Operation::InterestAccrualExploit { user_idx, asset_idx }
    } else if roll == 4 {
        Operation::FirstDepositorAttack { attacker_idx: user_idx, victim_idx, asset_idx }
    } else if roll == 5 {
        Operation::DonationAttack { attacker_idx: user_idx, asset_idx, donation_amount: count }
    } else {
        Operation::BorrowMaxWithdrawAttempt {
            user_idx,
            supply_asset_idx: asset_idx,
            borrow_asset_idx: second_asset_idx,
        }
    }
}

/// The attack made from the drawn roll, the top borrower and the drawn
/// parties, assets and count.
pub fn adversarial_op_from(
    roll: u8,
    top_borrower: u8,
    user_idx: u8,
    victim_idx: u8,
    asset_idx: u8,
    second_asset_idx: u8,
    count: u8,
) -> (op: Operation)
    ensures
        op == adversarial_choice(roll, top_borrower, user_idx, victim_idx, asset_idx, second_asset_idx, count),
{
    if roll == 0 {
        Operation::RapidSupplyWithdraw { user_idx, asset_idx, iterations: count }
    } else if roll == 1 {
        Operation::RapidBorrowRepay { user_idx: top_borrower, asset_idx, iterations: count }
    } else if roll == 2 {
        Operation::SandwichPriceChange { attacker_idx: user_idx, victim_idx, asset_idx }
    } else if roll == 3 {
        Operation::InterestAccrualExploit { user_idx, asset_idx }
    } else if roll == 4 {
        Operation::FirstDepositorAttack { attacker_idx: user_idx, victim_idx, asset_idx }
    } else if roll == 5 {
        Operation::DonationAttack { attacker_idx: user_idx, asset_idx, donation_amount: count }
    } else {
        Operation::BorrowMaxWithdrawAttempt {
            user_idx,
            supply_asset_idx: asset_idx,
            borrow_asset_idx: second_asset_idx,
        }
    }
}

/// The admin operation a draw makes, by roll: a reserve configuration, a
/// supply cap, a borrow cap, a whitelist change, an activation switch, else
/// a freeze switch.  `cap` serves both caps and `flag` the three switches.
pub open spec fn admin_choice(
    roll: u8,
    asset_idx: u8,
    ltv: u32,
    liquidation_threshold: u32,
    liquidation_bonus: u32,
    cap: u32,
    user_idx: u8,
    flag: bool,
) -> Operation {
    if roll == 0 {
        Operation::UpdateReserveConfiguration { asset_idx, ltv, liquidation_threshold, liquidation_bonus }
    } else if roll == 1 {
        Operation::SetReserveSupplyCap { asset_idx, cap }
    } else if roll == 2 {
        Operation::SetReserveBorrowCap { asset_idx, cap }
    } else if roll == 3 {
        Operation::SetReserveWhitelist { asset_idx, user_idx, add: flag }
    } else if roll == 4 {
        Operation::SetReserveActive { asset_idx, active: flag }
    } else {
        Operation::SetReserveFrozen { asset_idx, frozen: flag }
    }
}

/// The admin operation made from the drawn roll and values.
pub fn admin_op_from(
    roll: u8,
    asset_idx: u8,
    ltv: u32,
    liquidation_threshold: u32,
    liquidation_bonus: u32,
    cap: u32,
    user_idx: u8,
    flag: bool,
) -> (op: Operation)
    ensures
        op == admin_choice(roll, asset_idx, ltv, liquidation_threshold, liquidation_bonus, cap, user_idx, flag),
{
    if roll == 0 {
        Operation::UpdateReserveConfiguration { asset_idx, ltv, liquidation_threshold, liquidation_bonus }
    } else if roll == 1 {
        Operation::SetReserveSupplyCap { asset_idx, cap }
    } else if roll == 2 {
        Operation::SetReserveBorrowCap { asset_idx, cap }
    } else if roll == 3 {
        Operation::SetReserveWhitelist { asset_idx, user_idx, add: flag }
    } else if roll == 4 {
        Operation::SetReserveActive { asset_idx, active: flag }
    } else {
        Operation::SetReserveFrozen { asset_idx, frozen: flag }
    }
}

/// The supply drawn from `b` against `s`, and the bytes left: the asset,
/// the roll, the recipient when the roll asks for one, and the percentage;
/// the supplier is the user with the most underlying of the asset.
pub open spec fn gen_supply(b: Seq<u8>, s: SimView) -> (Operation, Seq<u8>) {
    let (asset_idx, b) = draw_u8(b, 0, 3);
    let user_idx = argmax_last(|u: int| s.und(u, asset_idx as int) as int, NUM_USERS as int) as u8;
    let (roll, b) = draw_u8(b, 0, 4);
    let (recipient_idx, b) = if roll <= 3 {
        (0u8, b)
    } else {
        draw_u8(b, 0, 7)
    };
    let (amount_percent, b) = draw_u8(b, 40, 80);
    (supply_choice(user_idx, asset_idx, roll, recipient_idx, amount_percent), b)
}

/// Draw a supply: the user with the most underlying of a random asset
/// supplies 40-80%, for themselves (four times in five) or for a random
/// recipient.
pub fn generate_supply_operation(u: &mut Unstructured, state: &SimulatedState) -> (r: Result<Operation, arbitrary::Error>)
    requires
        state.wf(),
    ensures
        r matches Ok(op) && supply_shape(state@, op),
        r matches Ok(op) && (op, unstructured_bytes(*final(u))) == gen_supply(unstructured_bytes(*old(u)), state@),
{
    let asset_idx = int_in_range_u8(u, 0, 3)?;
    let user_idx = state.best_user_for_supply(asset_idx as usize);
    proof {
        lemma_argmax_last_is(|x: int| state@.und(x, asset_idx as int) as int, NUM_USERS as int, user_idx as int);
    }
    let roll = int_in_range_u8(u, 0, 4)?;
    let recipient_idx = if roll <= 3 {
        0
    } else {
        int_in_range_u8(u, 0, 7)?
    };
    let amount_percent = int_in_range_u8(u, 40, 80)?;
    Ok(supply_op_from(user_idx, asset_idx, roll, recipient_idx, amount_percent))
}

/// The withdrawal drawn from `b` against `s`, and the bytes left: the
/// asset, the roll, the recipient when the roll asks for one and the
/// percentage (up to the offered cap) unless it is a full withdrawal; the
/// withdrawer is the user with the most collateral in the asset.
pub open spec fn gen_withdraw(b: Seq<u8>, s: SimView) -> (Operation, Seq<u8>) {
    let (asset_idx, b) = draw_u8(b, 0, 3);
    let user_idx = argmax_last(|u: int| s.coll(u, asset_idx as int) as int, NUM_USERS as int) as u8;
    let has_debt = s.has_dbt(user_idx as int);
    let max_percent = withdraw_cap(s, user_idx as int, asset_idx as int) as u8;
    let (roll, b) = draw_u8(b, 0, 2);
    let partial = roll == 0 || (roll == 1 && has_debt);
    let (recipient_idx, b) = if !partial && roll != 1 {
        draw_u8(b, 0, 7)
    } else {
        (0u8, b)
    };
    let (amount_percent, b) = if partial || roll != 1 {
        draw_u8(b, 10, max_percent)
    } else {
        (0u8, b)
    };
    (withdraw_choice(user_idx, asset_idx, has_debt, roll, recipient_idx, amount_percent), b)
}

/// The borrow drawn from `b` against `s`, and the bytes left: the roll,
/// the recipient when the roll asks for one, and the percentage (up to the
/// cap); the borrower is the user with the most collateral and the asset
/// the one with the most liquidity.
pub open spec fn gen_borrow(b: Seq<u8>, s: SimView) -> (Operation, Seq<u8>) {
    let user_idx = top_borrower(s) as u8;
    let asset_idx = argmax_last(|a: int| s.pool(a) as int, NUM_ASSETS as int) as u8;
    let max_percent = borrow_cap(s, user_idx as int) as u8;
    let (roll, b) = draw_u8(b, 0, 2);
    let (recipient_idx, b) = if roll <= 1 {
        (0u8, b)
    } else {
        draw_u8(b, 0, 7)
    };
    let (amount_percent, b) = draw_u8(b, 15, max_percent);
    (borrow_choice(user_idx, asset_idx, roll, recipient_idx, amount_percent), b)
}

/// The first asset where `p` holds, or one drawn from `b` when there is
/// none, and the bytes left.
pub open spec fn asset_where_or_draw(b: Seq<u8>, p: spec_fn(int) -> bool) -> (u8, Seq<u8>) {
    if exists|a: int| 0 <= a < NUM_ASSETS && #[trigger] p(a) {
        (first_index(p, NUM_ASSETS as int) as u8, b)
    } else {
        draw_u8(b, 0, 3)
    }
}

/// The first user holding more than dust of `asset`, or user 0 when nobody
/// does.
pub open spec fn funded_payer_of(s: SimView, asset: u8) -> u8 {
    let p = |x: int| s.und(x, asset as int) > DUST_THRESHOLD;
    if exists|x: int| 0 <= x < NUM_USERS && #[trigger] p(x) {
        first_index(p, NUM_USERS as int) as u8
    } else {
        0u8
    }
}

/// The liquidation target: the user with debt and collateral at the
/// lowest health factor (the first on ties), or one drawn from `b` when
/// there is none; and the bytes left.
pub open spec fn target_or_draw(b: Seq<u8>, s: SimView) -> (u8, Seq<u8>) {
    let p = |x: int| s.has_dbt(x) && s.has_coll(x);
    if exists|x: int| 0 <= x < NUM_USERS && #[trigger] p(x) {
        (argmin_first(p, |x: int| s.hf(x), NUM_USERS as int) as u8, b)
    } else {
        draw_u8(b, 0, 7)
    }
}

/// The repayment drawn from `b` against `s`, and the bytes left: the asset
/// is the first with debt (drawn when nobody owes anything), the borrower
/// the user with the most debt in it; then the roll, and the percentage
/// unless the borrower repays everything.  A borrower without funds is
/// repaid for by the first user holding more than dust of the asset (user
/// 0 when nobody does).
pub open spec fn gen_repay(b: Seq<u8>, s: SimView) -> (Operation, Seq<u8>) {
    let (asset_idx, b) = asset_where_or_draw(b, |a: int| s.asset_has_debt(a));
    let user_idx = argmax_last(|u: int| s.dbt(u, asset_idx as int) as int, NUM_USERS as int) as u8;
    let has_funds = s.und(user_idx as int, asset_idx as int) > DUST_THRESHOLD;
    let (roll, b) = draw_u8(b, 0, 2);
    if roll <= 1 && has_funds {
        let (amount_percent, b) = draw_u8(b, 30, 100);
        (repay_choice(user_idx, asset_idx, has_funds, roll, 0, amount_percent), b)
    } else if has_funds {
        (repay_choice(user_idx, asset_idx, has_funds, roll, 0, 0), b)
    } else {
        let payer_idx = funded_payer_of(s, asset_idx);
        let (amount_percent, b) = draw_u8(b, 30, 100);
        (repay_choice(user_idx, asset_idx, has_funds, roll, payer_idx, amount_percent), b)
    }
}

/// The liquidation drawn from `b` against `s`, and the bytes left: the
/// liquidator; the target (the user with debt and collateral at the lowest
/// health factor, drawn when there is none); its first collateral asset
/// above dust and its first debt asset (each drawn when there is none);
/// the roll; and the percentage of a direct liquidation.
pub open spec fn gen_liquidation(b: Seq<u8>, s: SimView) -> (Operation, Seq<u8>) {
    let (liquidator_idx, b) = draw_u8(b, 0, 7);
    let (user_idx, b) = target_or_draw(b, s);
    let (collateral_idx, b) = asset_where_or_draw(b, |a: int| s.coll(user_idx as int, a) > DUST_THRESHOLD);
    let (debt_idx, b) = asset_where_or_draw(b, |a: int| s.dbt(user_idx as int, a) > 0);
    let favor_create = s.hf(user_idx as int) > 10000;
    let (roll, b) = draw_u8(b, 0, 5);
    let (amount_percent, b) = if roll <= 1 && !favor_create {
        draw_u8(b, 30, 100)
    } else {
        (0u8, b)
    };
    (liquidation_choice(liquidator_idx, user_idx, collateral_idx, debt_idx, favor_create, roll, amount_percent), b)
}

/// The flash loan drawn from `b` against `s`, and the bytes left: the
/// receiver, the roll, the user, then one percentage, or a second asset and
/// two percentages; the first asset is the one with the most liquidity.
pub open spec fn gen_flash_loan(b: Seq<u8>, s: SimView) -> (Operation, Seq<u8>) {
    let (receiver_type, b) = gen_receiver(b);
    let asset_idx = argmax_last(|a: int| s.pool(a) as int, NUM_ASSETS as int) as u8;
    let (roll, b) = draw_u8(b, 0, 2);
    let (user_idx, b) = draw_u8(b, 0, 7);
    if roll <= 1 {
        let (amount_percent, b) = draw_u8(b, 20, 80);
        (flash_loan_choice(receiver_type, asset_idx, roll, user_idx, amount_percent, 0, 0), b)
    } else {
        let (second_asset, b) = draw_u8(b, 0, 3);
        let (first_percent, b) = draw_u8(b, 10, 90);
        let (second_percent, b) = draw_u8(b, 10, 90);
        (flash_loan_choice(receiver_type, asset_idx, roll, user_idx, first_percent, second_asset, second_percent), b)
    }
}

/// The oracle operation drawn from `b`, and the bytes left: the roll, the
/// asset, the change of a price change and the swings of a volatility
/// sequence.
pub open spec fn gen_oracle(b: Seq<u8>) -> (Operation, Seq<u8>) {
    let (roll, b) = draw_u8(b, 0, 4);
    let (asset_idx, b) = draw_u8(b, 0, 3);
    let (price_change_bps, b) = if roll <= 1 {
        draw_i16(b, -3000i16, 3000i16)
    } else {
        (0i16, b)
    };
    let (swings, b) = if roll == 3 {
        draw_u8(b, 2, 5)
    } else {
        (0u8, b)
    };
    (oracle_choice(roll, asset_idx, price_change_bps, swings), b)
}

/// The environmental operation drawn from `b` against `s`, and the bytes
/// left: the roll, the span and duration of a time warp, the years of an
/// extreme one, and the asset of a collection.
pub open spec fn gen_environmental(b: Seq<u8>, s: SimView) -> (Operation, Seq<u8>) {
    let (roll, b) = draw_u8(b, 0, 5);
    let (seconds, b) = if roll <= 2 {
        let (span, b) = draw_u8(b, 0, 3);
        draw_u32(b, warp_range(span).0, warp_range(span).1)
    } else {
        (0u32, b)
    };
    let (years, b) = if roll == 3 {
        draw_u8(b, 1, 5)
    } else {
        (0u8, b)
    };
    let (asset_idx, b) = if roll >= 5 {
        draw_u8(b, 0, 3)
    } else {
        (0u8, b)
    };
    (environmental_choice(roll, s.paused, seconds, years, asset_idx), b)
}

/// The edge case drawn from `b`, and the bytes left: the roll, the user,
/// the asset, the dust amount of a dust operation and the percentage of a
/// flash loan while paused.
pub open spec fn gen_edge_case(b: Seq<u8>) -> (Operation, Seq<u8>) {
    let (roll, b) = draw_u8(b, 0, 7);
    let (user_idx, b) = draw_u8(b, 0, 7);
    let (asset_idx, b) = draw_u8(b, 0, 3);
    let (dust_amount, b) = if roll == 2 || roll == 3 {
        draw_u8(b, 1, 100)
    } else {
        (0u8, b)
    };
    let (amount_percent, b) = if roll >= 7 {
        draw_u8(b, 10, 90)
    } else {
        (0u8, b)
    };
    (edge_case_choice(roll, user_idx, asset_idx, dust_amount, amount_percent), b)
}

/// The attack drawn from `b` against `s`, and the bytes left: the roll,
/// the user (the one with the most collateral for rapid borrowing), the
/// victim of a sandwich or first-depositor attack, the asset, the cycles or
/// donation, and the borrowed asset of the last pattern.
pub open spec fn gen_adversarial(b: Seq<u8>, s: SimView) -> (Operation, Seq<u8>) {
    let (roll, b) = draw_u8(b, 0, 6);
    let top = top_borrower(s) as u8;
    let (user_idx, b) = if roll == 1 {
        (top, b)
    } else {
        draw_u8(b, 0, 7)
    };
    let (victim_idx, b) = if roll == 2 || roll == 4 {
        draw_u8(b, 0, 7)
    } else {
        (0u8, b)
    };
    let (asset_idx, b) = draw_u8(b, 0, 3);
    let (count, b) = if roll <= 1 {
        draw_u8(b, 2, 5)
    } else if roll == 5 {
        draw_u8(b, 1, 50)
    } else {
        (0u8, b)
    };
    let (second_asset_idx, b) = if roll >= 6 {
        draw_u8(b, 0, 3)
    } else {
        (0u8, b)
    };
    (adversarial_choice(roll, top, user_idx, victim_idx, asset_idx, second_asset_idx, count), b)
}

/// The admin operation drawn from `b`, and the bytes left: the roll; for a
/// reserve configuration the LTV, threshold, asset and bonus; otherwise the
/// asset, the cap of a cap change, the user of a whitelist change and the
/// flag of a switch.
pub open spec fn gen_admin(b: Seq<u8>) -> (Operation, Seq<u8>) {
    let (roll, b) = draw_u8(b, 0, 5);
    if roll == 0 {
        let (ltv, b) = draw_u32(b, 1000, 7500);
        let (liquidation_threshold, b) = draw_u32(b, (ltv + 500) as u32, 9000);
        let (asset_idx, b) = draw_u8(b, 0, 3);
        let (liquidation_bonus, b) = draw_u32(b, 100, 1500);
        (admin_choice(roll, asset_idx, ltv, liquidation_threshold, liquidation_bonus, 0, 0, false), b)
    } else {
        let (asset_idx, b) = draw_u8(b, 0, 3);
        let (cap, b) = if roll == 1 {
            draw_u32(b, 0, 1_000_000)
        } else if roll == 2 {
            draw_u32(b, 0, 500_000)
        } else {
            (0u32, b)
        };
        let (user_idx, b) = if roll == 3 {
            draw_u8(b, 0, 7)
        } else {
            (0u8, b)
        };
        let (flag, b) = if roll >= 3 {
            draw_bool(b)
        } else {
            (false, b)
        };
        (admin_choice(roll, asset_idx, 0, 0, 0, cap, user_idx, flag), b)
    }
}

/// The operation of a category drawn from `b` against `s`, and the bytes
/// left.
pub open spec fn gen_category(b: Seq<u8>, s: SimView, category: OperationCategory) -> (Operation, Seq<u8>) {
    match category {
        OperationCategory::Supply => gen_supply(b, s),
        OperationCategory::Withdraw => gen_withdraw(b, s),
        OperationCategory::Borrow => gen_borrow(b, s),
        OperationCategory::Repay => gen_repay(b, s),
        OperationCategory::Liquidation => gen_liquidation(b, s),
        OperationCategory::FlashLoan => gen_flash_loan(b, s),
        OperationCategory::Oracle => gen_oracle(b),
        OperationCategory::Environmental => gen_environmental(b, s),
        OperationCategory::EdgeCase => gen_edge_case(b),
        OperationCategory::Adversarial => gen_adversarial(b, s),
        OperationCategory::Admin => gen_admin(b),
    }
}

fn withdraw_percent_cap(state: &SimulatedState, user: usize, asset: usize) -> (c: u8)
    requires
        sim_ready(state@),
        user < NUM_USERS,
        asset < NUM_ASSETS,
    ensures
        c == withdraw_cap(state@, user as int, asset as int),
        10 <= c <= 90,
{
    proof {
        crate::common::simulation::lemma_bounded_queries(state@, QUERY_BOUND as int);
    }
    let has_debt = state.has_debt(user);
    let collateral = state.collateral_of(user, asset);
    if has_debt && collateral > 0 {
        let total_coll = state.total_collateral_value(user);
        let total_debt = state.total_debt(user);
        let min_coll_needed = total_debt * 10000 / 7500 * 12 / 10;
        let withdrawable = total_coll.saturating_sub(min_coll_needed);
        let max_withdraw_this_asset = if withdrawable <= collateral {
            withdrawable
        } else {
            collateral
        };
        assert(max_withdraw_this_asset * 100 <= collateral * 100) by (nonlinear_arith)
            requires
                max_withdraw_this_asset <= collateral,
        ;
        assert(max_withdraw_this_asset * 100 / (collateral as int) <= 100) by (nonlinear_arith)
            requires
                max_withdraw_this_asset <= collateral,
                collateral > 0,
        ;
        let pct = (max_withdraw_this_asset * 100 / collateral) as u8;
        let capped = if pct < 50 {
            pct
        } else {
            50
        };
        if capped > 10 {
            capped
        } else {
            10
        }
    } else {
        90
    }
}

fn generate_withdraw(u: &mut Unstructured, state: &SimulatedState) -> (r: Result<Operation, arbitrary::Error>)
    requires
        sim_ready(state@),
    ensures
        r matches Ok(op) && withdraw_shape(state@, op),
        r matches Ok(op) && (op, unstructured_bytes(*final(u))) == gen_withdraw(unstructured_bytes(*old(u)), state@),
{
    let asset_idx = int_in_range_u8(u, 0, 3)?;
    let user_idx = state.best_user_for_withdraw(asset_idx as usize);
    proof {
        lemma_argmax_last_is(|x: int| state@.coll(x, asset_idx as int) as int, NUM_USERS as int, user_idx as int);
    }
    let has_debt = state.has_debt(user_idx as usize);
    let max_percent = withdraw_percent_cap(state, user_idx as usize, asset_idx as usize);
    let roll = int_in_range_u8(u, 0, 2)?;
    let partial = roll == 0 || (roll == 1 && has_debt);
    let recipient_idx = if !partial && roll != 1 {
        int_in_range_u8(u, 0, 7)?
    } else {
        0
    };
    let amount_percent = if partial || roll != 1 {
        int_in_range_u8(u, 10, max_percent)?
    } else {
        0
    };
    Ok(withdraw_op_from(user_idx, asset_idx, has_debt, roll, recipient_idx, amount_percent))
}

fn generate_borrow(u: &mut Unstructured, state: &SimulatedState) -> (r: Result<Operation, arbitrary::Error>)
    requires
        sim_ready(state@),
    ensures
        r matches Ok(op) && borrow_shape(state@, op),
        r matches Ok(op) && (op, unstructured_bytes(*final(u))) == gen_borrow(unstructured_bytes(*old(u)), state@),
{
    proof {
        crate::common::simulation::lemma_bounded_queries(state@, QUERY_BOUND as int);
    }
    let user_idx = state.best_user_for_borrow();
    let asset_idx = state.best_asset_for_flashloan();
    proof {
        lemma_argmax_last_is(|x: int| state@.coll_sum(x), NUM_USERS as int, user_idx as int);
        lemma_argmax_last_is(|a: int| state@.pool(a) as int, NUM_ASSETS as int, asset_idx as int);
    }
    let user_hf = state.health_factor(user_idx as usize);
    let max_borrow_pct: u8 = if user_hf > 20000 {
        40
    } else {
        25
    };
    let roll = int_in_range_u8(u, 0, 2)?;
    let recipient_idx = if roll <= 1 {
        0
    } else {
        int_in_range_u8(u, 0, 7)?
    };
    let amount_percent = int_in_range_u8(u, 15, max_borrow_pct)?;
    Ok(borrow_op_from(user_idx, asset_idx, roll, recipient_idx, amount_percent))
}

fn generate_repay(u: &mut Unstructured, state: &SimulatedState) -> (r: Result<Operation, arbitrary::Error>)
    requires
        sim_ready(state@),
    ensures
        r matches Ok(op) && repay_shape(state@, op),
        r matches Ok(op) && (op, unstructured_bytes(*final(u))) == gen_repay(unstructured_bytes(*old(u)), state@),
{
    let asset_idx = match state.first_asset_with_debt() {
        Some(a) => {
            proof {
                lemma_first_index_is(|a: int| state@.asset_has_debt(a), NUM_ASSETS as int, a as int);
            }
            a
        },
        None => int_in_range_u8(u, 0, 3)?,
    };
    proof {
        if exists|a: int| 0 <= a < NUM_ASSETS && #[trigger] state@.asset_has_debt(a) {
            let a = choose|a: int| 0 <= a < NUM_ASSETS && #[trigger] state@.asset_has_debt(a);
            assert((|a: int| state@.asset_has_debt(a))(a));
        }
    }
    let user_idx = state.best_user_for_repay(asset_idx as usize);
    proof {
        lemma_argmax_last_is(|x: int| state@.dbt(x, asset_idx as int) as int, NUM_USERS as int, user_idx as int);
    }
    let has_funds = state.underlying_of(user_idx as usize, asset_idx as usize) > DUST_THRESHOLD;
    let roll = int_in_range_u8(u, 0, 2)?;
    if roll <= 1 && has_funds {
        let amount_percent = int_in_range_u8(u, 30, 100)?;
        Ok(repay_op_from(user_idx, asset_idx, has_funds, roll, 0, amount_percent))
    } else if has_funds {
        Ok(repay_op_from(user_idx, asset_idx, has_funds, roll, 0, 0))
    } else {
        let payer_idx = match state.first_funded_user(asset_idx as usize) {
            Some(p) => {
                proof {
                    lemma_first_index_is(
                        |x: int| state@.und(x, asset_idx as int) > DUST_THRESHOLD,
                        NUM_USERS as int,
                        p as int,
                    );
                }
                p
            },
            None => 0,
        };
        proof {
            if exists|p: int| 0 <= p < NUM_USERS && #[trigger] state@.und(p, asset_idx as int)
                > DUST_THRESHOLD {
                let p = choose|p: int| 0 <= p < NUM_USERS && #[trigger] state@.und(p, asset_idx as int)
                    > DUST_THRESHOLD;
                assert((|p: int| state@.und(p, asset_idx as int) > DUST_THRESHOLD)(p));
            }
        }
        let amount_percent = int_in_range_u8(u, 30, 100)?;
        Ok(repay_op_from(user_idx, asset_idx, has_funds, roll, payer_idx, amount_percent))
    }
}


fn generate_liquidation(u: &mut Unstructured, state: &SimulatedState) -> (r: Result<Operation, arbitrary::Error>)
    requires
        sim_ready(state@),
    ensures
        r matches Ok(op) && liquidation_shape(state@, op),
        r matches Ok(op) && (op, unstructured_bytes(*final(u))) == gen_liquidation(unstructured_bytes(*old(u)), state@),
{
    proof {
        crate::common::simulation::lemma_bounded_queries(state@, QUERY_BOUND as int);
    }
    let liquidator_idx = int_in_range_u8(u, 0, 7)?;
    let user_idx = match state.best_user_for_liquidation() {
        Some(x) => {
            proof {
                lemma_argmin_first_is(
                    |v: int| state@.has_dbt(v) && state@.has_coll(v),
                    |v: int| state@.hf(v),
                    NUM_USERS as int,
                    x as int,
                );
            }
            x
        },
        None => int_in_range_u8(u, 0, 7)?,
    };
    let user = user_idx as usize;
    let collateral_idx = match state.first_collateral_asset(user) {
        Some(a) => {
            proof {
                lemma_first_index_is(
                    |x: int| state@.coll(user as int, x) > DUST_THRESHOLD,
                    NUM_ASSETS as int,
                    a as int,
                );
            }
            a
        },
        None => int_in_range_u8(u, 0, 3)?,
    };
    let debt_idx = match state.first_debt_asset(user) {
        Some(a) => {
            proof {
                lemma_first_index_is(|x: int| state@.dbt(user as int, x) > 0, NUM_ASSETS as int, a as int);
            }
            a
        },
        None => int_in_range_u8(u, 0, 3)?,
    };
    let hf = state.health_factor(user);
    let favor_create = hf > 10000;
    let roll = int_in_range_u8(u, 0, 5)?;
    let amount_percent = if roll <= 1 && !favor_create {
        int_in_range_u8(u, 30, 100)?
    } else {
        0
    };
    Ok(
        liquidation_op_from(
            liquidator_idx,
            user_idx,
            collateral_idx,
            debt_idx,
            favor_create,
            roll,
            amount_percent,
        ),
    )
}

fn generate_flash_loan(u: &mut Unstructured, state: &SimulatedState) -> (r: Result<Operation, arbitrary::Error>)
    requires
        state.wf(),
    ensures
        r matches Ok(op) && flash_loan_shape(state@, op),
        r matches Ok(op) && (op, unstructured_bytes(*final(u))) == gen_flash_loan(unstructured_bytes(*old(u)), state@),
{
    let receiver_type = generate_receiver_type(u)?;
    let asset_idx = state.best_asset_for_flashloan();
    proof {
        lemma_argmax_last_is(|a: int| state@.pool(a) as int, NUM_ASSETS as int, asset_idx as int);
    }
    let roll = int_in_range_u8(u, 0, 2)?;
    let user_idx = int_in_range_u8(u, 0, 7)?;
    if roll <= 1 {
        let amount_percent = int_in_range_u8(u, 20, 80)?;
        Ok(flash_loan_op_from(receiver_type, asset_idx, roll, user_idx, amount_percent, 0, 0))
    } else {
        let second_asset = int_in_range_u8(u, 0, 3)?;
        let first_percent = int_in_range_u8(u, 10, 90)?;
        let second_percent = int_in_range_u8(u, 10, 90)?;
        Ok(
            flash_loan_op_from(
                receiver_type,
                asset_idx,
                roll,
                user_idx,
                first_percent,
                second_asset,
                second_percent,
            ),
        )
    }
}

fn generate_oracle(u: &mut Unstructured) -> (r: Result<Operation, arbitrary::Error>)
    ensures
        r matches Ok(op) && oracle_shape(op),
        r matches Ok(op) && (op, unstructured_bytes(*final(u))) == gen_oracle(unstructured_bytes(*old(u))),
{
    let roll = int_in_range_u8(u, 0, 4)?;
    let asset_idx = int_in_range_u8(u, 0, 3)?;
    let price_change_bps = if roll <= 1 {
        int_in_range_i16(u, -3000, 3000)?
    } else {
        0
    };
    let swings = if roll == 3 {
        int_in_range_u8(u, 2, 5)?
    } else {
        0
    };
    Ok(oracle_op_from(roll, asset_idx, price_change_bps, swings))
}

fn generate_environmental(u: &mut Unstructured, state: &SimulatedState) -> (r: Result<Operation, arbitrary::Error>)
    ensures
        r matches Ok(op) && environmental_shape(state@, op),
        r matches Ok(op) && (op, unstructured_bytes(*final(u))) == gen_environmental(unstructured_bytes(*old(u)), state@),
{
    let roll = int_in_range_u8(u, 0, 5)?;
    let seconds = if roll <= 2 {
        let span = int_in_range_u8(u, 0, 3)?;
        let (lo, hi) = warp_range_for(span);
        int_in_range_u32(u, lo, hi)?
    } else {
        0
    };
    let years = if roll == 3 {
        int_in_range_u8(u, 1, 5)?
    } else {
        0
    };
    let asset_idx = if roll >= 5 {
        int_in_range_u8(u, 0, 3)?
    } else {
        0
    };
    Ok(environmental_op_from(roll, state.is_paused(), seconds, years, asset_idx))
}

fn generate_edge_case(u: &mut Unstructured) -> (r: Result<Operation, arbitrary::Error>)
    ensures
        r matches Ok(op) && edge_case_shape(op),
        r matches Ok(op) && (op, unstructured_bytes(*final(u))) == gen_edge_case(unstructured_bytes(*old(u))),
{
    let roll = int_in_range_u8(u, 0, 7)?;
    let user_idx = int_in_range_u8(u, 0, 7)?;
    let asset_idx = int_in_range_u8(u, 0, 3)?;
    let dust_amount = if roll == 2 || roll == 3 {
        int_in_range_u8(u, 1, 100)?
    } else {
        0
    };
    let amount_percent = if roll >= 7 {
        int_in_range_u8(u, 10, 90)?
    } else {
        0
    };
    Ok(edge_case_op_from(roll, user_idx, asset_idx, dust_amount, amount_percent))
}

fn generate_adversarial(u: &mut Unstructured, state: &SimulatedState) -> (r: Result<Operation, arbitrary::Error>)
    requires
        sim_ready(state@),
    ensures
        r matches Ok(op) && adversarial_shape(state@, op),
        r matches Ok(op) && (op, unstructured_bytes(*final(u))) == gen_adversarial(unstructured_bytes(*old(u)), state@),
{
    proof {
        crate::common::simulation::lemma_bounded_queries(state@, QUERY_BOUND as int);
    }
    let roll = int_in_range_u8(u, 0, 6)?;
    let top_borrower = state.best_user_for_borrow();
    proof {
        lemma_argmax_last_is(|x: int| state@.coll_sum(x), NUM_USERS as int, top_borrower as int);
    }
    let user_idx = if roll == 1 {
        top_borrower
    } else {
        int_in_range_u8(u, 0, 7)?
    };
    let victim_idx = if roll == 2 || roll == 4 {
        int_in_range_u8(u, 0, 7)?
    } else {
        0
    };
    let asset_idx = int_in_range_u8(u, 0, 3)?;
    let count = if roll <= 1 {
        int_in_range_u8(u, 2, 5)?
    } else if roll == 5 {
        int_in_range_u8(u, 1, 50)?
    } else {
        0
    };
    let second_asset_idx = if roll >= 6 {
        int_in_range_u8(u, 0, 3)?
    } else {
        0
    };
    Ok(adversarial_op_from(roll, top_borrower, user_idx, victim_idx, asset_idx, second_asset_idx, count))
}

fn generate_admin(u: &mut Unstructured) -> (r: Result<Operation, arbitrary::Error>)
    ensures
        r matches Ok(op) && admin_shape(op),
        r matches Ok(op) && (op, unstructured_bytes(*final(u))) == gen_admin(unstructured_bytes(*old(u))),
{
    let roll = int_in_range_u8(u, 0, 5)?;
    if roll == 0 {
        let ltv = int_in_range_u32(u, 1000, 7500)?;
        let liquidation_threshold = int_in_range_u32(u, ltv + 500, 9000)?;
        let asset_idx = int_in_range_u8(u, 0, 3)?;
        let liquidation_bonus = int_in_range_u32(u, 100, 1500)?;
        Ok(admin_op_from(roll, asset_idx, ltv, liquidation_threshold, liquidation_bonus, 0, 0, false))
    } else {
        let asset_idx = int_in_range_u8(u, 0, 3)?;
        let cap = if roll == 1 {
            int_in_range_u32(u, 0, 1_000_000)?
        } else if roll == 2 {
            int_in_range_u32(u, 0, 500_000)?
        } else {
            0
        };
        let user_idx = if roll == 3 {
            int_in_range_u8(u, 0, 7)?
        } else {
            0
        };
        let flag = if roll >= 3 {
            arbitrary_bool(u)?
        } else {
            false
        };
        Ok(admin_op_from(roll, asset_idx, 0, 0, 0, cap, user_idx, flag))
    }
}

/// Draw an operation of the given category, steered by the simulated state
/// as `category_shape` describes.
pub fn generate_operation_for_category(
    u: &mut Unstructured,
    category: OperationCategory,
    state: &SimulatedState,
) -> (r: Result<Operation, arbitrary::Error>)
    requires
        sim_ready(state@),
    ensures
        r matches Ok(op) && category_shape(state@, category, op),
        r matches Ok(op) && (op, unstructured_bytes(*final(u))) == gen_category(
            unstructured_bytes(*old(u)),
            state@,
            category,
        ),
{
    match category {
        OperationCategory::Supply => generate_supply_operation(u, state),
        OperationCategory::Withdraw => generate_withdraw(u, state),
        OperationCategory::Borrow => generate_borrow(u, state),
        OperationCategory::Repay => generate_repay(u, state),
        OperationCategory::Liquidation => generate_liquidation(u, state),
        OperationCategory::FlashLoan => generate_flash_loan(u, state),
        OperationCategory::Oracle => generate_oracle(u),
        OperationCategory::Environmental => generate_environmental(u, state),
        OperationCategory::EdgeCase => generate_edge_case(u),
        OperationCategory::Adversarial => generate_adversarial(u, state),
        OperationCategory::Admin => generate_admin(u),
    }
}


// ---------------------------------------------------------------------------
// Weighted category choice
// ---------------------------------------------------------------------------

/// How far through the run operation `op_index` of `total_ops` lies, in
/// percent.
pub open spec fn phase_of(op_index: int, total_ops: int) -> int {
    op_index * 100 / total_ops
}

/// What the simulated state offers the category choice.
pub struct StateFlags {
    pub has_collateral: bool,
    pub has_debt: bool,
    pub has_liquidity: bool,
    pub has_low_health: bool,
    /// The user with the most collateral is above a health factor of 1.5
    pub top_healthy_mid: bool,
    /// The user with the most collateral is above a health factor of 1.2
    pub top_healthy_late: bool,
}

/// The user with the most collateral (the last one on ties).
pub open spec fn top_borrower(s: SimView) -> int {
    argmax_last(|u: int| s.coll_sum(u), NUM_USERS as int)
}

/// The flags a simulated state gives.
pub open spec fn flags_of(s: SimView) -> StateFlags {
    StateFlags {
        has_collateral: exists|u: int| 0 <= u < NUM_USERS && #[trigger] s.has_coll(u),
        has_debt: exists|u: int| 0 <= u < NUM_USERS && #[trigger] s.has_dbt(u),
        has_liquidity: exists|a: int| 0 <= a < NUM_ASSETS && #[trigger] s.pool(a) > DUST_THRESHOLD,
        has_low_health: exists|u: int| 0 <= u < NUM_USERS && 0 < #[trigger] s.hf(u) < 15000,
        top_healthy_mid: s.hf(top_borrower(s)) > 15000,
        top_healthy_late: s.hf(top_borrower(s)) > 12000,
    }
}

/// The weighted categories offered in a phase: early, mostly supplies and
/// borrows; in the middle, a balanced mix that follows the state; late,
/// repayments, liquidations, edge cases and attacks.  Withdrawals are offered
/// only without debt or while the top borrower is healthy; repayments and
/// liquidations only with debt (liquidations weigh more with a low-health
/// user); flash loans only with liquidity.
pub open spec fn category_table(phase: int, f: StateFlags) -> Seq<(OperationCategory, u8)> {
    if phase <= 30 {
        seq![(OperationCategory::Supply, 5u8)] + (if f.has_collateral {
            seq![(OperationCategory::Borrow, 4u8)]
        } else {
            seq![]
        }) + seq![(OperationCategory::Environmental, 1u8), (OperationCategory::Oracle, 1u8)]
    } else if phase <= 60 {
        seq![(OperationCategory::Supply, 2u8)] + (if f.has_collateral {
            seq![(OperationCategory::Borrow, 3u8)] + (if !f.has_debt || f.top_healthy_mid {
                seq![(OperationCategory::Withdraw, 2u8)]
            } else {
                seq![]
            })
        } else {
            seq![]
        }) + (if f.has_debt {
            seq![
                (OperationCategory::Repay, 2u8),
                (OperationCategory::Liquidation, if f.has_low_health {
                    4u8
                } else {
                    1u8
                }),
            ]
        } else {
            seq![]
        }) + (if f.has_liquidity {
            seq![(OperationCategory::FlashLoan, 2u8)]
        } else {
            seq![]
        }) + seq![
            (OperationCategory::Oracle, 2u8),
            (OperationCategory::Environmental, 2u8),
            (OperationCategory::Admin, 1u8),
            (OperationCategory::Adversarial, 1u8),
        ]
    } else {
        (if f.has_debt {
            seq![
                (OperationCategory::Repay, 2u8),
                (OperationCategory::Liquidation, if f.has_low_health {
                    5u8
                } else {
                    2u8
                }),
            ]
        } else {
            seq![]
        }) + (if f.has_collateral && (!f.has_debt || f.top_healthy_late) {
            seq![(OperationCategory::Withdraw, 2u8)]
        } else {
            seq![]
        }) + seq![
            (OperationCategory::EdgeCase, 2u8),
            (OperationCategory::Adversarial, 3u8),
            (OperationCategory::Oracle, 3u8),
            (OperationCategory::Environmental, 2u8),
        ] + (if f.has_liquidity {
            seq![(OperationCategory::FlashLoan, 2u8)]
        } else {
            seq![]
        }) + seq![(OperationCategory::Admin, 1u8)]
    }
}

/// Build the weighted category list for a phase from the state's flags.
#[verifier::spinoff_prover]
#[verifier::rlimit(40)]
pub fn category_weights(phase: usize, f: &StateFlags) -> (t: Vec<(OperationCategory, u8)>)
    ensures
        t@ == category_table(phase as int, *f),
{
    let mut t: Vec<(OperationCategory, u8)> = Vec::new();
    if phase <= 30 {
        t.push((OperationCategory::Supply, 5));
        if f.has_collateral {
            t.push((OperationCategory::Borrow, 4));
        }
        t.push((OperationCategory::Environmental, 1));
        t.push((OperationCategory::Oracle, 1));
    } else if phase <= 60 {
        t.push((OperationCategory::Supply, 2));
        if f.has_collateral {
            t.push((OperationCategory::Borrow, 3));
            if !f.has_debt || f.top_healthy_mid {
                t.push((OperationCategory::Withdraw, 2));
            }
        }
        if f.has_debt {
            t.push((OperationCategory::Repay, 2));
            t.push(
                (
                    OperationCategory::Liquidation,
                    if f.has_low_health {
                        4
                    } else {
                        1
                    },
                ),
            );
        }
        if f.has_liquidity {
            t.push((OperationCategory::FlashLoan, 2));
        }
        t.push((OperationCategory::Oracle, 2));
        t.push((OperationCategory::Environmental, 2));
        t.push((OperationCategory::Admin, 1));
        t.push((OperationCategory::Adversarial, 1));
    } else {
        if f.has_debt {
            t.push((OperationCategory::Repay, 2));
            t.push(
                (
                    OperationCategory::Liquidation,
                    if f.has_low_health {
                        5
                    } else {
                        2
                    },
                ),
            );
        }
        if f.has_collateral && (!f.has_debt || f.top_healthy_late) {
            t.push((OperationCategory::Withdraw, 2));
        }
        t.push((OperationCategory::EdgeCase, 2));
        t.push((OperationCategory::Adversarial, 3));
        t.push((OperationCategory::Oracle, 3));
        t.push((OperationCategory::Environmental, 2));
        if f.has_liquidity {
            t.push((OperationCategory::FlashLoan, 2));
        }
        t.push((OperationCategory::Admin, 1));
    }
    assert(t@ =~= category_table(phase as int, *f));
    t
}

/// The weights of the first `k` entries, summed with saturation at 255.
pub open spec fn prefix_weight(t: Seq<(OperationCategory, u8)>, k: int) -> int
    decreases k,
{
    if k <= 0 {
        0
    } else {
        let s = prefix_weight(t, k - 1) + t[k - 1].1;
        if s > 255 {
            255
        } else {
            s
        }
    }
}

/// The category a roll lands on: the first entry whose cumulative weight
/// exceeds the roll (supply when none does).
pub open spec fn landed(t: Seq<(OperationCategory, u8)>, roll: int) -> OperationCategory {
    if exists|i: int| 0 <= i < t.len() && roll < #[trigger] prefix_weight(t, i + 1) {
        t[choose|i: int|
            0 <= i < t.len() && roll < #[trigger] prefix_weight(t, i + 1) && forall|j: int|
                0 <= j < i ==> roll >= #[trigger] prefix_weight(t, j + 1)].0
    } else {
        OperationCategory::Supply
    }
}

proof fn lemma_prefix_weight_mono(t: Seq<(OperationCategory, u8)>, j: int, k: int)
    requires
        0 <= j <= k,
    ensures
        prefix_weight(t, j) <= prefix_weight(t, k),
        0 <= prefix_weight(t, k) <= 255,
    decreases k,
{
    if k > 0 {
        if j < k {
            lemma_prefix_weight_mono(t, j, k - 1);
        } else {
            lemma_prefix_weight_mono(t, j - 1, k - 1);
        }
    }
}

/// Pick the category a roll lands on in a weighted list.
pub fn select_category(t: &Vec<(OperationCategory, u8)>, roll: u8) -> (c: OperationCategory)
    ensures
        c == landed(t@, roll as int),
        (exists|i: int| 0 <= i < t@.len() && roll < #[trigger] prefix_weight(t@, i + 1)) ==> exists|
            i: int,
        | 0 <= i < t@.len() && t@[i].0 == c,
{
    let mut cumulative: u8 = 0;
    let mut i: usize = 0;
    while i < t.len()
        invariant
            i <= t@.len(),
            cumulative == prefix_weight(t@, i as int),
            forall|j: int| 0 <= j < i ==> roll >= #[trigger] prefix_weight(t@, j + 1),
        decreases t@.len() - i,
    {
        cumulative = cumulative.saturating_add(t[i].1);
        if roll < cumulative {
            proof {
                let w = choose|k: int|
                    0 <= k < t@.len() && roll < #[trigger] prefix_weight(t@, k + 1) && forall|j: int|
                        0 <= j < k ==> roll >= #[trigger] prefix_weight(t@, j + 1);
                assert(0 <= i < t@.len() && roll < prefix_weight(t@, i + 1) && forall|j: int|
                    0 <= j < i ==> roll >= #[trigger] prefix_weight(t@, j + 1));
                if w < i {
                    assert(roll >= prefix_weight(t@, w + 1));
                } else if w > i {
                    assert(roll >= prefix_weight(t@, i + 1));
                }
            }
            return t[i].0;
        }
        i = i + 1;
    }
    OperationCategory::Supply
}

/// Every table entry has a positive weight, and there is at least one.
proof fn lemma_table_positive(phase: int, f: StateFlags)
    ensures
        category_table(phase, f).len() > 0,
        forall|i: int| 0 <= i < category_table(phase, f).len() ==> #[trigger] category_table(phase, f)[i].1 >= 1,
{
}

/// In a non-empty list of positive weights, a roll below the total lands on
/// an entry.
proof fn lemma_roll_lands(t: Seq<(OperationCategory, u8)>, roll: int)
    requires
        t.len() > 0,
        forall|i: int| 0 <= i < t.len() ==> #[trigger] t[i].1 >= 1,
        0 <= roll < prefix_weight(t, t.len() as int),
    ensures
        exists|i: int| 0 <= i < t.len() && roll < #[trigger] prefix_weight(t, i + 1),
{
    assert(roll < prefix_weight(t, (t.len() - 1) + 1));
}

/// The flags of the simulated state, computed.
pub fn state_flags(state: &SimulatedState) -> (f: StateFlags)
    requires
        sim_ready(state@),
    ensures
        f == flags_of(state@),
{
    proof {
        crate::common::simulation::lemma_bounded_queries(state@, QUERY_BOUND as int);
    }
    let has_collateral = state.any_collateral();
    let has_debt = state.any_debt();
    let has_liquidity = state.has_liquidity(0) || state.has_liquidity(1) || state.has_liquidity(2)
        || state.has_liquidity(3);
    let has_low_health = state.has_low_health_user();
    let top = state.best_user_for_borrow();
    let top_hf = state.health_factor(top as usize);
    proof {
        lemma_argmax_last_is(|x: int| state@.coll_sum(x), NUM_USERS as int, top as int);
        if has_liquidity {
            if state@.pool(0) > DUST_THRESHOLD {
            } else if state@.pool(1) > DUST_THRESHOLD {
            } else if state@.pool(2) > DUST_THRESHOLD {
            } else {
                assert(state@.pool(3) > DUST_THRESHOLD);
            }
        }
    }
    StateFlags {
        has_collateral,
        has_debt,
        has_liquidity,
        has_low_health,
        top_healthy_mid: top_hf > 15000,
        top_healthy_late: top_hf > 12000,
    }
}

// ---------------------------------------------------------------------------
// Operation sequences and inputs
// ---------------------------------------------------------------------------

/// What operation `op_index` of `total_ops` may be, from the simulated state
/// before it: one of the first three is a supply; later ones belong to a
/// category the phase and the state offer.
pub open spec fn stateful_shape(s: SimView, op_index: int, total_ops: int, op: Operation) -> bool {
    if op_index < 3 {
        supply_shape(s, op)
    } else {
        let table = category_table(phase_of(op_index, total_ops), flags_of(s));
        exists|k: int| 0 <= k < table.len() && #[trigger] category_shape(s, table[k].0, op)
    }
}

proof fn lemma_table_small(phase: int, f: StateFlags)
    ensures
        category_table(phase, f).len() <= 10,
        forall|i: int| 0 <= i < category_table(phase, f).len() ==> #[trigger] category_table(phase, f)[i].1 <= 5,
{
}

/// Operation `op_index` of a sequence of `total_ops` drawn from `b` against
/// `s`, and the bytes left: one of the first three is a supply; a later one
/// draws a roll below the total weight of the categories the phase and the
/// state offer, then an operation of the category the roll lands on.
pub open spec fn gen_stateful(b: Seq<u8>, s: SimView, op_index: int, total_ops: int) -> (Operation, Seq<u8>) {
    if op_index < 3 {
        gen_supply(b, s)
    } else {
        let table = category_table(phase_of(op_index, total_ops), flags_of(s));
        let total = prefix_weight(table, table.len() as int);
        let (drawn, b) = draw_u32(b, 0, (total - 1) as u32);
        gen_category(b, s, landed(table, drawn as int))
    }
}

/// Draw the next operation of a sequence of `total_ops`: the first three are
/// supplies; later ones pick a category by weight from those the phase and
/// the simulated state offer, then an operation of that category.
pub fn generate_stateful_operation(
    u: &mut Unstructured,
    state: &SimulatedState,
    op_index: usize,
    total_ops: usize,
) -> (r: Result<Operation, arbitrary::Error>)
    requires
        sim_ready(state@),
        op_index >= 3 ==> total_ops > 0,
        op_index * 100 <= usize::MAX,
    ensures
        r matches Ok(op) && stateful_shape(state@, op_index as int, total_ops as int, op),
        r matches Ok(op) && (op, unstructured_bytes(*final(u))) == gen_stateful(
            unstructured_bytes(*old(u)),
            state@,
            op_index as int,
            total_ops as int,
        ),
{
    if op_index < 3 {
        return generate_supply_operation(u, state);
    }
    let phase = (op_index * 100) / total_ops;
    let flags = state_flags(state);
    let mut categories = category_weights(phase, &flags);
    proof {
        lemma_table_positive(phase as int, flags);
        lemma_table_small(phase as int, flags);
    }
    if categories.len() == 0 {
        categories.push((OperationCategory::Supply, 1));
    }
    let ghost table = categories@;
    let mut total_weight: u8 = 0;
    let mut i: usize = 0;
    while i < categories.len()
        invariant
            categories@ == table,
            table.len() <= 10,
            forall|k: int| 0 <= k < table.len() ==> #[trigger] table[k].1 <= 5,
            i <= table.len(),
            total_weight == prefix_weight(table, i as int),
            total_weight <= 5 * i,
        decreases table.len() - i,
    {
        total_weight = total_weight + categories[i].1;
        i = i + 1;
    }
    proof {
        lemma_prefix_weight_mono(table, 1, table.len() as int);
        assert(prefix_weight(table, 0) == 0);
        assert(prefix_weight(table, 1) == table[0].1);
    }
    let drawn = int_in_range_u32(u, 0, total_weight.saturating_sub(1) as u32)?;
    let roll = drawn as u8;
    proof {
        lemma_roll_lands(table, roll as int);
    }
    let selected = select_category(&categories, roll);
    let op = generate_operation_for_category(u, selected, state)?;
    proof {
        assert(table == category_table(phase_of(op_index as int, total_ops as int), flags_of(state@)));
        let k = choose|k: int| 0 <= k < table.len() && table[k].0 == selected;
        assert(category_shape(state@, table[k].0, op));
        assert(stateful_shape(state@, op_index as int, total_ops as int, op));
    }
    Ok(op)
}

/// The simulated state every user starts from: the initial balance of every
/// asset, nothing supplied, borrowed or paused.
pub open spec fn initial_view() -> SimView {
    SimView {
        underlying: Seq::new(32, |i: int| crate::common::constants::INITIAL_BALANCE as u128),
        collateral: Seq::new(32, |i: int| 0u128),
        debt: Seq::new(32, |i: int| 0u128),
        pool_liquidity: Seq::new(4, |i: int| 0u128),
        paused: false,
    }
}

/// The simulated state after the first `k` operations.
pub open spec fn replay(ops: Seq<Operation>, k: int) -> SimView
    decreases k,
{
    if k <= 0 {
        initial_view()
    } else {
        replay(ops, k - 1).step(ops[k - 1])
    }
}

proof fn lemma_replay_prefix(ops: Seq<Operation>, op: Operation, k: int)
    requires
        0 <= k <= ops.len(),
    ensures
        replay(ops.push(op), k) == replay(ops, k),
    decreases k,
{
    if k > 0 {
        lemma_replay_prefix(ops, op, k - 1);
    }
}

/// The bound on simulated entries after `i` steps: the initial balance,
/// doubled per step.
pub open spec fn bound_at(i: nat) -> int
    decreases i,
{
    if i == 0 {
        crate::common::constants::INITIAL_BALANCE as int
    } else {
        2 * bound_at((i - 1) as nat)
    }
}

proof fn lemma_bound_at_within(i: nat)
    requires
        i <= 25,
    ensures
        0 < bound_at(i) <= SIM_BOUND,
    decreases 25 - i,
{
    if i < 25 {
        lemma_bound_at_within(i + 1);
    } else {
        reveal_with_fuel(bound_at, 26);
        assert(bound_at(25) == SIM_BOUND);
    }
}

proof fn lemma_bounded_mono(s: SimView, m: int, n: int)
    requires
        s.bounded(m),
        m <= n,
    ensures
        s.bounded(n),
{
}

/// The first `k` operations of a sequence of `n` drawn from `b`, each
/// against the state the earlier ones lead to, and the bytes left.
pub open spec fn gen_ops(b: Seq<u8>, n: int, k: nat) -> (Seq<Operation>, Seq<u8>)
    decreases k,
{
    if k == 0 {
        (Seq::<Operation>::empty(), b)
    } else {
        let (ops, b) = gen_ops(b, n, (k - 1) as nat);
        let (op, b) = gen_stateful(b, replay(ops, k - 1), k - 1, n);
        (ops.push(op), b)
    }
}

/// What an input drawn from `b` holds, and the bytes left: the number of
/// operations (5 to 25), the operations, four reserve configurations and
/// four initial prices, in that order.
pub open spec fn gen_input(b: Seq<u8>) -> (Seq<Operation>, Seq<AssetConfig>, Seq<u128>, Seq<u8>) {
    let (n, b) = draw_usize(b, 5, 25);
    let (ops, b) = gen_ops(b, n as int, n as nat);
    let (c0, b) = gen_config(b);
    let (c1, b) = gen_config(b);
    let (c2, b) = gen_config(b);
    let (c3, b) = gen_config(b);
    let (p0, b) = draw_u128(b, MIN_PRICE, MAX_PRICE);
    let (p1, b) = draw_u128(b, MIN_PRICE, MAX_PRICE);
    let (p2, b) = draw_u128(b, MIN_PRICE, MAX_PRICE);
    let (p3, b) = draw_u128(b, MIN_PRICE, MAX_PRICE);
    (ops, seq![c0, c1, c2, c3], seq![p0, p1, p2, p3], b)
}

/// `input` is what `gen_input` draws from `b`, leaving `rest`.
pub open spec fn input_drawn(input: Input, b: Seq<u8>, rest: Seq<u8>) -> bool {
    let d = gen_input(b);
    &&& input.operations@ == d.0
    &&& forall|i: int| 0 <= i < 4 ==> #[trigger] input.asset_configs[i] == d.1[i]
    &&& forall|i: int| 0 <= i < 4 ==> #[trigger] input.initial_prices[i] == d.2[i]
    &&& rest == d.3
}

/// The shape of a generated input: five to 25 operations, each as
/// `stateful_shape` allows from the state the earlier ones lead to, and
/// reserve configurations and prices in their ranges.
pub open spec fn input_shape(input: Input) -> bool {
    let ops = input.operations@;
    &&& 5 <= ops.len() <= 25
    &&& forall|k: int|
        0 <= k < ops.len() ==> #[trigger] stateful_shape(replay(ops, k), k, ops.len() as int, ops[k])
    &&& forall|i: int| 0 <= i < 4 ==> #[trigger] config_in_range(input.asset_configs[i])
    &&& forall|i: int| 0 <= i < 4 ==> MIN_PRICE <= #[trigger] input.initial_prices[i] <= MAX_PRICE
}

/// Draw a fuzz input: five to 25 operations generated against the pool
/// simulation (which each operation then updates), four reserve
/// configurations and four initial prices.
pub fn generate_input(u: &mut Unstructured) -> (r: Result<Input, arbitrary::Error>)
    ensures
        r matches Ok(input) && input_shape(input),
        r matches Ok(input) && input_drawn(input, unstructured_bytes(*old(u)), unstructured_bytes(*final(u))),
{
    let ghost b0 = unstructured_bytes(*u);
    let num_ops = int_in_range_usize(u, 5, 25)?;
    let ghost b1 = unstructured_bytes(*u);
    let mut operations: Vec<Operation> = Vec::with_capacity(num_ops);
    let mut state = SimulatedState::default();
    proof {
        assert(state@.underlying =~= initial_view().underlying);
        assert(state@.collateral =~= initial_view().collateral);
        assert(state@.debt =~= initial_view().debt);
        assert(state@.pool_liquidity =~= initial_view().pool_liquidity);
        assert(state@ == replay(operations@, 0));
    }
    let mut i: usize = 0;
    while i < num_ops
        invariant
            5 <= num_ops <= 25,
            i <= num_ops,
            operations@.len() == i,
            state.wf(),
            state@ == replay(operations@, i as int),
            state@.bounded(bound_at(i as nat)),
            (num_ops, b1) == draw_usize(b0, 5, 25),
            (operations@, unstructured_bytes(*u)) == gen_ops(b1, num_ops as int, i as nat),
            forall|k: int|
                0 <= k < i ==> #[trigger] stateful_shape(
                    replay(operations@, k),
                    k,
                    num_ops as int,
                    operations@[k],
                ),
        decreases num_ops - i,
    {
        proof {
            lemma_bound_at_within(i as nat);
            lemma_bounded_mono(state@, bound_at(i as nat), QUERY_BOUND as int);
        }
        let ghost bi = unstructured_bytes(*u);
        let op = generate_stateful_operation(u, &state, i, num_ops)?;
        proof {
            crate::common::simulation::lemma_step_bounded(state@, op, bound_at(i as nat));
            assert forall|k: int| 0 <= k <= i implies #[trigger] replay(operations@.push(op), k) == replay(
                operations@,
                k,
            ) by {
                lemma_replay_prefix(operations@, op, k);
            }
        }
        let ghost before = operations@;
        state.update(&op);
        operations.push(op);
        proof {
            assert(operations@ == before.push(op));
            assert(replay(operations@, i + 1) == replay(operations@, i as int).step(operations@[i as int]));
            assert(operations@[i as int] == op);
            assert(gen_ops(b1, num_ops as int, (i + 1) as nat) == (before.push(op), unstructured_bytes(*u)));
            assert forall|k: int|
                0 <= k < i + 1 implies #[trigger] stateful_shape(
                replay(operations@, k),
                k,
                num_ops as int,
                operations@[k],
            ) by {
                if k < i {
                    assert(operations@[k] == before[k]);
                    assert(stateful_shape(replay(before, k), k, num_ops as int, before[k]));
                }
            }
        }
        i = i + 1;
    }
    let c0 = generate_asset_config(u)?;
    let c1 = generate_asset_config(u)?;
    let c2 = generate_asset_config(u)?;
    let c3 = generate_asset_config(u)?;
    let p0 = int_in_range_u128(u, MIN_PRICE, MAX_PRICE)?;
    let p1 = int_in_range_u128(u, MIN_PRICE, MAX_PRICE)?;
    let p2 = int_in_range_u128(u, MIN_PRICE, MAX_PRICE)?;
    let p3 = int_in_range_u128(u, MIN_PRICE, MAX_PRICE)?;
    let input = Input { operations, asset_configs: [c0, c1, c2, c3], initial_prices: [p0, p1, p2, p3] };
    proof {
        assert(input.asset_configs[0] == c0);
        assert(input.asset_configs[1] == c1);
        assert(input.asset_configs[2] == c2);
        assert(input.asset_configs[3] == c3);
        assert(input.initial_prices[0] == p0);
        assert(input.initial_prices[1] == p1);
        assert(input.initial_prices[2] == p2);
        assert(input.initial_prices[3] == p3);
        assert(input_drawn(input, b0, unstructured_bytes(*u)));
    }
    Ok(input)
}

} // verus!
