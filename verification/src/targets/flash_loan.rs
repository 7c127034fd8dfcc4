//! Flash-loan target: receiver behaviours, the repayment a configurable
//! receiver makes, and the pool accounting invariants around a flash loan.
use vstd::prelude::*;

pub use crate::targets::views::{MockReflector, PriceData};

verus! {

/// RAY constant (1e9 in this protocol)
pub const RAY: u128 = 1_000_000_000;
/// Base price with 14 decimals (1 USD)
pub const BASE_PRICE: u128 = 1_000_000_000_000_000;

/// Storage keys for the configurable receiver.
#[derive(Clone, Copy, Debug, PartialEq, Eq, Structural)]
pub enum ReceiverDataKey {
    AToken,
    Asset,
    Behavior,
    RepayDeltaBps,
}

/// Flash loan receiver whose behaviour is configured before each loan.
#[derive(Clone, Copy, Debug)]
pub struct ConfigurableReceiver;

/// Behavior of the flash loan receiver.
#[derive(Clone, Copy, Debug, PartialEq, Eq, Structural)]
pub enum ReceiverBehavior {
    /// Repays exactly principal + premium (success)
    ExactRepay,
    /// Repays principal + premium + extra (success, excess goes to suppliers)
    Overpay,
    /// Repays less than required (fails with FlashLoanNotRepaid)
    Underpay,
    /// Repays nothing (fails with FlashLoanNotRepaid)
    NoRepay,
    /// Panics during execution (fails)
    Panic,
    /// Returns false from execute_operation (fails)
    ReturnFalse,
}

impl ReceiverBehavior {
    /// The code under which the receiver stores this behaviour.
    pub open spec fn code(self) -> u32 {
        match self {
            ReceiverBehavior::ExactRepay => 0,
            ReceiverBehavior::Overpay => 1,
            ReceiverBehavior::Underpay => 2,
            ReceiverBehavior::NoRepay => 3,
            ReceiverBehavior::Panic => 4,
            ReceiverBehavior::ReturnFalse => 5,
        }
    }

    /// The code under which the receiver stores this behaviour.
    pub fn to_u32(&self) -> (c: u32)
        ensures
            c == self.code(),
    {
        match self {
            ReceiverBehavior::ExactRepay => 0,
            ReceiverBehavior::Overpay => 1,
            ReceiverBehavior::Underpay => 2,
            ReceiverBehavior::NoRepay => 3,
            ReceiverBehavior::Panic => 4,
            ReceiverBehavior::ReturnFalse => 5,
        }
    }

    /// This behaviour should result in a successful flash loan.
    pub fn should_succeed(&self) -> (r: bool)
        ensures
            r == (*self == ReceiverBehavior::ExactRepay || *self == ReceiverBehavior::Overpay),
    {
        match self {
            ReceiverBehavior::ExactRepay | ReceiverBehavior::Overpay => true,
            _ => false,
        }
    }
}

/// Decoding a stored code gives the behaviour back.
pub proof fn lemma_behavior_code_injective(a: ReceiverBehavior, b: ReceiverBehavior)
    ensures
        a.code() == b.code() <==> a == b,
{
}

/// Operations that can occur during flash loan testing.
#[derive(Clone, Copy, Debug, PartialEq, Eq, Structural)]
pub enum FlashLoanOperation {
    /// Supply liquidity to pool
    SupplyLiquidity { amount: u64 },
    /// Advance time (test staleness, interest)
    AdvanceTime { seconds: u32 },
    /// Change asset price (in basis points, 100 = 1% of base)
    SetPrice { price_bps: u16 },
    /// Attempt a flash loan
    ExecuteFlashLoan {
        amount: u64,
        receiver_behavior: ReceiverBehavior,
        /// For Underpay/Overpay fine-tuning: -10000 to +10000 bps
        repay_delta_bps: i16,
    },
    /// Attempt flash loan requesting maximum available liquidity
    ExecuteFlashLoanMaxAmount { receiver_behavior: ReceiverBehavior },
    /// Attempt flash loan with zero amount (should fail)
    ExecuteFlashLoanZeroAmount,
    /// Withdraw some liquidity (affects available balance for flash loans)
    WithdrawLiquidity { amount: u64 },
}

/// Fuzz input of the flash-loan target.
#[derive(Clone, Copy, Debug)]
pub struct FlashLoanFuzzInput {
    /// Initial liquidity in pool (clamped to reasonable range)
    pub initial_liquidity: u64,
    /// Flash loan premium setting (0-100 bps)
    pub premium_bps: u8,
    /// Sequence of operations to execute
    pub operations: [Option<FlashLoanOperation>; 8],
}

/// What the configurable receiver does inside the flash-loan callback.
#[derive(Clone, Debug, PartialEq, Eq)]
pub enum ReceiverAction {
    /// Transfer these amounts (one per borrowed asset) to the given aToken
    /// and report success; an underpaying receiver skips the transfers whose
    /// amount is 0.
    Repay(u64, Vec<u128>),
    /// Keep the borrowed funds and report success.
    KeepFunds,
    /// Panic inside the callback.
    Abort,
    /// Report failure.
    ReportFailure,
}

/// The extra that an overpaying receiver adds to `owed`.
pub open spec fn overpay_extra(owed: int, repay_delta_bps: i32) -> int {
    if repay_delta_bps > 0 {
        owed * repay_delta_bps / 10000
    } else {
        owed / 10
    }
}

/// The amount the receiver transfers back for one asset.
pub open spec fn repayment(behavior: u32, amount: int, premium: int, repay_delta_bps: i32) -> int {
    let owed = amount + premium;
    if behavior == 1 {
        owed + overpay_extra(owed, repay_delta_bps)
    } else if behavior == 2 {
        let reduction = if repay_delta_bps < 0 {
            owed * (-repay_delta_bps) / 10000
        } else {
            premium + 1
        };
        if owed < reduction {
            0
        } else {
            owed - reduction
        }
    } else {
        owed
    }
}

/// Which way each receiver pays back one asset of a loan of `amount` with
/// `premium` owed on top (both non-negative): an exact receiver pays what
/// is owed; an overpaying one at least that; an underpaying one at most
/// that, and strictly less whenever something is owed and no negative delta
/// is given; nothing it pays back is negative.
pub proof fn lemma_repayment_direction(behavior: u32, amount: int, premium: int, repay_delta_bps: i32)
    requires
        amount >= 0,
        premium >= 0,
    ensures
        behavior == 0 ==> repayment(behavior, amount, premium, repay_delta_bps) == amount + premium,
        behavior == 1 ==> repayment(behavior, amount, premium, repay_delta_bps) >= amount + premium,
        behavior == 2 ==> 0 <= repayment(behavior, amount, premium, repay_delta_bps) <= amount + premium,
        behavior == 2 && repay_delta_bps >= 0 && amount + premium > 0 ==> repayment(
            behavior,
            amount,
            premium,
            repay_delta_bps,
        ) < amount + premium,
{
    let owed = amount + premium;
    if repay_delta_bps > 0 {
        assert(owed * repay_delta_bps / 10000 >= 0) by (nonlinear_arith)
            requires
                owed >= 0,
                repay_delta_bps > 0,
        ;
    }
    if repay_delta_bps < 0 {
        assert(owed * (-repay_delta_bps) / 10000 >= 0) by (nonlinear_arith)
            requires
                owed >= 0,
                repay_delta_bps < 0,
        ;
    }
}

/// The router's premium grows with the amount, is never negative, and is at
/// most the amount for a rate of at most 100%.
pub proof fn lemma_premium_bounds(amount: int, other: int, premium_bps: int)
    requires
        0 <= amount <= other,
        premium_bps >= 0,
    ensures
        0 <= premium_of(amount, premium_bps) <= premium_of(other, premium_bps),
        premium_bps <= 10000 ==> premium_of(amount, premium_bps) <= amount,
{
    assert(0 <= amount * premium_bps <= other * premium_bps) by (nonlinear_arith)
        requires
            0 <= amount <= other,
            premium_bps >= 0,
    ;
    assert(premium_bps <= 10000 ==> amount * premium_bps <= amount * 10000) by (nonlinear_arith)
        requires
            amount >= 0,
            premium_bps >= 0,
    ;
}

/// The repayment arithmetic does not overflow for this asset.
pub open spec fn repayment_fits(behavior: u32, amount: int, premium: int, repay_delta_bps: i32) -> bool {
    let owed = amount + premium;
    &&& owed <= u128::MAX
    &&& behavior == 1 ==> owed * (if repay_delta_bps > 0 { repay_delta_bps as int } else { 1 })
        <= u128::MAX && owed + overpay_extra(owed, repay_delta_bps) <= u128::MAX
    &&& behavior == 2 ==> (repay_delta_bps < 0 ==> repay_delta_bps > i32::MIN && owed * (
    -repay_delta_bps) <= u128::MAX) && (repay_delta_bps >= 0 ==> premium + 1 <= u128::MAX)
}

impl ConfigurableReceiver {
    /// The callback's decision for a flash loan of `amounts` with `premiums`
    /// under the stored aToken, behaviour code and repayment delta: without a
    /// stored aToken it reports failure whatever the behaviour.
    pub fn plan_repayment(
        a_token: Option<u64>,
        behavior: u32,
        amounts: &Vec<u128>,
        premiums: &Vec<u128>,
        repay_delta_bps: i32,
    ) -> (action: ReceiverAction)
        requires
            amounts@.len() == premiums@.len(),
            behavior != 3 && behavior != 4 && behavior != 5 ==> forall|i: int|
                0 <= i < amounts@.len() ==> repayment_fits(
                    behavior,
                    #[trigger] amounts@[i] as int,
                    premiums@[i] as int,
                    repay_delta_bps,
                ),
        ensures
            a_token is None ==> action == ReceiverAction::ReportFailure,
            a_token is Some && behavior == 3 ==> action == ReceiverAction::KeepFunds,
            a_token is Some && behavior == 4 ==> action == ReceiverAction::Abort,
            a_token is Some && behavior == 5 ==> action == ReceiverAction::ReportFailure,
            a_token is Some && behavior != 3 && behavior != 4 && behavior != 5 ==> (action matches ReceiverAction::Repay(
                to,
                r,
            ) && a_token == Some(to) && r@.len() == amounts@.len() && forall|i: int|
                0 <= i < amounts@.len() ==> #[trigger] r@[i] == repayment(
                    behavior,
                    amounts@[i] as int,
                    premiums@[i] as int,
                    repay_delta_bps,
                )),
    {
        let to = match a_token {
            Some(t) => t,
            None => {
                return ReceiverAction::ReportFailure;
            },
        };
        if behavior == 3 {
            return ReceiverAction::KeepFunds;
        }
        if behavior == 4 {
            return ReceiverAction::Abort;
        }
        if behavior == 5 {
            return ReceiverAction::ReportFailure;
        }
        let mut out: Vec<u128> = Vec::new();
        let mut i: usize = 0;
        while i < amounts.len()
            invariant
                amounts@.len() == premiums@.len(),
                behavior != 3 && behavior != 4 && behavior != 5,
                forall|i: int|
                    0 <= i < amounts@.len() ==> repayment_fits(
                        behavior,
                        #[trigger] amounts@[i] as int,
                        premiums@[i] as int,
                        repay_delta_bps,
                    ),
                i <= amounts@.len(),
                out@.len() == i,
                forall|k: int|
                    0 <= k < i ==> #[trigger] out@[k] == repayment(
                        behavior,
                        amounts@[k] as int,
                        premiums@[k] as int,
                        repay_delta_bps,
                    ),
            decreases amounts@.len() - i,
        {
            let amount = amounts[i];
            let premium = premiums[i];
            proof {
                assert(repayment_fits(behavior, amount as int, premium as int, repay_delta_bps));
            }
            let base_owed = amount + premium;
            let total = if behavior == 1 {
                let extra = if repay_delta_bps > 0 {
                    (base_owed * repay_delta_bps as u128) / 10000
                } else {
                    base_owed / 10
                };
                base_owed + extra
            } else if behavior == 2 {
                let reduction = if repay_delta_bps < 0 {
                    (base_owed * (-repay_delta_bps) as u128) / 10000
                } else {
                    premium + 1
                };
                base_owed.saturating_sub(reduction)
            } else {
                base_owed
            };
            out.push(total);
            i = i + 1;
        }
        ReceiverAction::Repay(to, out)
    }
}

/// The premium the router charges on `amount` at `premium_bps`.
pub open spec fn premium_of(amount: int, premium_bps: int) -> int {
    amount * premium_bps / 10000
}

/// The tokens to mint to the receiver before a flash loan so that it can
/// repay: principal plus premium (plus the overpayment), and a margin of
/// 1000 units; `None` for behaviours that are expected to fail.
pub fn receiver_funding(
    behavior: ReceiverBehavior,
    amount: u128,
    premium_bps: u128,
    repay_delta_bps: i16,
) -> (funding: Option<i128>)
    requires
        amount * premium_bps <= u128::MAX,
        amount + premium_of(amount as int, premium_bps as int) <= u128::MAX,
        behavior == ReceiverBehavior::Overpay ==> repayment_fits(
            1,
            amount as int,
            premium_of(amount as int, premium_bps as int),
            repay_delta_bps as i32,
        ),
    ensures
        (behavior == ReceiverBehavior::ExactRepay || behavior == ReceiverBehavior::Overpay)
            <==> funding is Some,
        funding matches Some(f) ==> f == (repayment(
            behavior.code(),
            amount as int,
            premium_of(amount as int, premium_bps as int),
            repay_delta_bps as i32,
        ) as i128).wrapping_add(1000),
{
    if behavior.should_succeed() {
        let premium = (amount * premium_bps) / 10000;
        let mut total_needed = amount + premium;
        if behavior == ReceiverBehavior::Overpay {
            let extra = if repay_delta_bps > 0 {
                (total_needed * repay_delta_bps as u128) / 10000
            } else {
                total_needed / 10
            };
            total_needed = total_needed + extra;
        }
        Some((total_needed as i128).wrapping_add(1000))
    } else {
        None
    }
}

/// Pool state before a flash loan.
#[derive(Clone, Copy, Debug)]
pub struct PoolSnapshot {
    pub atoken_underlying_balance: u128,
    pub treasury_balance: i128,
    pub liquidity_index: u128,
    pub variable_borrow_index: u128,
}

/// `max(x, 0)`.
pub open spec fn nonneg(x: i128) -> int {
    if x < 0 {
        0
    } else {
        x as int
    }
}

/// `x - y`, saturating at the i128 bounds.
pub open spec fn i128_sat_sub(x: i128, y: i128) -> int {
    let d = x - y;
    if d > i128::MAX {
        i128::MAX as int
    } else if d < i128::MIN {
        i128::MIN as int
    } else {
        d
    }
}

/// Pool accounting and index invariants after a flash loan attempt.
///
/// After success: the pool balance did not drop; the treasury grew when the
/// expected premium is at least 100; the pool plus treasury grew by the
/// expected premium within 10% (plus one) when that premium exceeds 10.
/// After failure: the pool balance is unchanged.  Always: indices at least
/// RAY and not below their values before the loan.
pub fn check_flash_loan_invariants(
    before_snapshot: &PoolSnapshot,
    current_atoken_balance: u128,
    current_treasury_balance: i128,
    liquidity_index: u128,
    variable_borrow_index: u128,
    flash_loan_succeeded: bool,
    expected_premium: u128,
) -> (ok: bool)
    requires
        flash_loan_succeeded ==> before_snapshot.atoken_underlying_balance + nonneg(
            before_snapshot.treasury_balance,
        ) <= u128::MAX && current_atoken_balance + nonneg(current_treasury_balance)
            <= u128::MAX,
    ensures
        ok == {
            &&& flash_loan_succeeded ==> {
                let total_before = before_snapshot.atoken_underlying_balance + nonneg(
                    before_snapshot.treasury_balance,
                );
                let total_after = current_atoken_balance + nonneg(current_treasury_balance);
                let increase = if total_after < total_before {
                    0
                } else {
                    total_after - total_before
                };
                &&& current_atoken_balance >= before_snapshot.atoken_underlying_balance
                &&& expected_premium > 0 ==> i128_sat_sub(
                    current_treasury_balance,
                    before_snapshot.treasury_balance,
                ) > 0 || expected_premium < 100
                &&& expected_premium > 10 ==> (if increase > expected_premium {
                    increase - expected_premium
                } else {
                    expected_premium - increase
                }) <= expected_premium / 10 + 1
            }
            &&& !flash_loan_succeeded ==> current_atoken_balance
                == before_snapshot.atoken_underlying_balance
            &&& liquidity_index >= RAY
            &&& variable_borrow_index >= RAY
            &&& liquidity_index >= before_snapshot.liquidity_index
            &&& variable_borrow_index >= before_snapshot.variable_borrow_index
        },
        flash_loan_succeeded && current_atoken_balance < before_snapshot.atoken_underlying_balance ==> !ok,
        !flash_loan_succeeded && current_atoken_balance != before_snapshot.atoken_underlying_balance ==> !ok,
        liquidity_index < RAY || variable_borrow_index < RAY ==> !ok,
        liquidity_index < before_snapshot.liquidity_index || variable_borrow_index
            < before_snapshot.variable_borrow_index ==> !ok,
{
    let mut ok = true;
    if flash_loan_succeeded {
        ok = ok && current_atoken_balance >= before_snapshot.atoken_underlying_balance;
        if expected_premium > 0 {
            let treasury_increase = i128_saturating_sub(
                current_treasury_balance,
                before_snapshot.treasury_balance,
            );
            ok = ok && (treasury_increase > 0 || expected_premium < 100);
        }
        let before_treasury: u128 = if before_snapshot.treasury_balance < 0 {
            0
        } else {
            before_snapshot.treasury_balance as u128
        };
        let current_treasury: u128 = if current_treasury_balance < 0 {
            0
        } else {
            current_treasury_balance as u128
        };
        let total_before = before_snapshot.atoken_underlying_balance + before_treasury;
        let total_after = current_atoken_balance + current_treasury;
        let total_increase = total_after.saturating_sub(total_before);
        if expected_premium > 10 {
            let tolerance = expected_premium / 10 + 1;
            let diff = if total_increase > expected_premium {
                total_increase - expected_premium
            } else {
                expected_premium - total_increase
            };
            ok = ok && diff <= tolerance;
        }
    } else {
        ok = ok && current_atoken_balance == before_snapshot.atoken_underlying_balance;
    }
    ok = ok && liquidity_index >= RAY;
    ok = ok && variable_borrow_index >= RAY;
    ok = ok && liquidity_index >= before_snapshot.liquidity_index;
    ok = ok && variable_borrow_index >= before_snapshot.variable_borrow_index;
    ok
}

/// `x - y` for i128, saturating at the type's bounds.
pub fn i128_saturating_sub(x: i128, y: i128) -> (r: i128)
    ensures
        r == i128_sat_sub(x, y),
{
    match x.checked_sub(y) {
        Some(d) => d,
        None => if y < 0 {
            i128::MAX
        } else {
            i128::MIN
        },
    }
}

/// Both indices are at least RAY.
pub fn check_basic_invariants(liquidity_index: u128, variable_borrow_index: u128) -> (ok: bool)
    ensures
        ok == (liquidity_index >= RAY && variable_borrow_index >= RAY),
{
    liquidity_index >= RAY && variable_borrow_index >= RAY
}

} // verus!
