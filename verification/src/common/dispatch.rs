//! The executor's dispatch for the operations that make a single router
//! call: from the operation and the balances read just before, which call to
//! make (with which amount, recipient and flags), whether the call must be
//! refused, or that nothing is called.  Operations that run a sequence of
//! calls with checks in between are decided by their own rules in
//! `executor`.
use vstd::prelude::*;
use crate::common::constants::{DUST_THRESHOLD, MAX_PRICE, MAX_SAFE_AMOUNT, MIN_PRICE, ZERO_PRICE};
use crate::common::executor::{
    at_least_min, capped_percent_amount, changed_price, clamp_price, close_factor_cap, dust_amount,
    dust_withdraw_amount, liquidation_cover, min, percent_amount, percent_amount_of, repay_all_amount,
    repay_amount,
};
use crate::common::operations::Operation;

verus! {

/// The balances the executor reads before an operation.  `wallet` is the
/// acting user's (or payer's) underlying of the operation's asset, `a_token`
/// the aTokens of the user whose collateral the operation touches (the
/// collateral or source asset), `debt` the debt of the user whose loan it
/// touches (the debt asset), `collateral_total` the acting user's aTokens
/// over all assets, `available` the pool's liquidity of the asset, and
/// `price` the asset's current price.
#[derive(Clone, Copy, Debug)]
pub struct StepReadings {
    pub wallet: i128,
    pub a_token: i128,
    pub debt: i128,
    pub collateral_total: i128,
    pub available: i128,
    pub price: u128,
}

/// A router (or token, or oracle) call, with users and assets by index.
#[derive(Clone, Copy, Debug, PartialEq, Eq, Structural)]
pub enum RouterCall {
    /// `supply` of `amount` by `user`, credited to `on_behalf_of`
    Supply { user: u8, asset: u8, amount: u128, on_behalf_of: u8 },
    /// `withdraw` of `amount` by `user`, paid to `to`
    Withdraw { user: u8, asset: u8, amount: u128, to: u8 },
    /// `borrow` of `amount` at the variable rate by `user`, paid to `to`
    Borrow { user: u8, asset: u8, amount: u128, to: u8 },
    /// `repay` of `amount` by `payer` of the debt of `on_behalf_of`
    Repay { payer: u8, asset: u8, amount: u128, on_behalf_of: u8 },
    /// `set_user_use_reserve_as_coll`
    SetCollateral { user: u8, asset: u8, enabled: bool },
    /// Move the ledger clock forward
    AdvanceTime { seconds: u32 },
    /// Set the oracle price of an asset
    SetPrice { asset: u8, price: u128 },
    /// `liquidation_call` covering `amount` of `user`'s debt
    Liquidate { liquidator: u8, user: u8, collateral: u8, debt: u8, amount: u128, receive_a_token: bool },
    /// `prepare_liquidation` of `amount` of `user`'s debt
    PrepareLiquidation { liquidator: u8, user: u8, collateral: u8, debt: u8, amount: u128 },
    /// `swap_collateral` of `amount` from one asset to another
    SwapCollateral { user: u8, from: u8, to: u8, amount: u128 },
    /// Direct aToken transfer
    TransferAToken { from: u8, to: u8, asset: u8, amount: u128 },
    /// `pause` by the admin
    Pause,
    /// `unpause` by the admin
    Unpause,
    /// `collect_protocol_reserves`
    CollectReserves { asset: u8 },
    /// `set_reserve_supply_cap`
    SetSupplyCap { asset: u8, cap: u128 },
    /// `set_reserve_borrow_cap`
    SetBorrowCap { asset: u8, cap: u128 },
    /// `set_reserve_debt_ceiling`
    SetDebtCeiling { asset: u8, ceiling: u128 },
    /// `propose_pool_admin` by the admin
    ProposePoolAdmin { new_admin: u8 },
    /// `accept_pool_admin`
    AcceptPoolAdmin { pending_admin: u8 },
}

/// What the executor does for an operation.
#[derive(Clone, Copy, Debug, PartialEq, Eq, Structural)]
pub enum StepPlan {
    /// Make no call; the operation counts as failed.
    Skip,
    /// Make the call; the operation succeeds when the call does.
    Call(RouterCall),
    /// Make the call, which must be refused; the operation counts as failed.
    ExpectRefusal(RouterCall),
    /// The operation runs a sequence of calls decided elsewhere.
    Sequence,
}

/// `balance * percent / 100` (at least 1) of a positive balance.
pub open spec fn pct_of(balance: i128, percent: u8) -> Option<u128> {
    if balance <= 0 {
        None
    } else {
        Some(percent_amount_of(balance as int, percent as int) as u128)
    }
}

/// As `pct_of`, but nothing above the largest safe amount.
pub open spec fn capped_pct_of(balance: i128, percent: u8) -> Option<u128> {
    if balance <= 0 || percent_amount_of(balance as int, percent as int) > MAX_SAFE_AMOUNT {
        None
    } else {
        Some(percent_amount_of(balance as int, percent as int) as u128)
    }
}

/// A percentage of the debt, at most the payer's balance, at least 1.
pub open spec fn repay_of(debt: i128, balance: i128, percent: u8) -> Option<u128> {
    if debt <= 0 || balance <= 0 {
        None
    } else {
        Some(at_least_min(min(debt * percent / 100, balance as int)) as u128)
    }
}

/// All of the debt the payer's balance covers.
pub open spec fn repay_all_of(debt: i128, balance: i128) -> Option<u128> {
    if debt <= 0 || balance <= 0 {
        None
    } else {
        Some(min(debt as int, balance as int) as u128)
    }
}

/// The debt a liquidation covers: a percentage (at least 1) within the close
/// factor, when the user has debt and collateral.
pub open spec fn cover_of(debt: i128, collateral: i128, percent: u8) -> Option<u128> {
    if debt <= 0 || collateral <= 0 {
        None
    } else {
        Some(
            min(percent_amount_of(debt as int, percent as int), close_factor_cap(debt as int))
                as u128,
        )
    }
}

/// A call when an amount was found, else no call.
pub open spec fn call_with(amount: Option<u128>, call: spec_fn(u128) -> RouterCall) -> StepPlan {
    match amount {
        Some(a) => StepPlan::Call(call(a)),
        None => StepPlan::Skip,
    }
}

/// The plan for an operation given what was read: each single-call
/// operation computes its amount from the relevant balance (nothing to call
/// when that balance is empty), a liquidation by the liquidated user is not
/// attempted (nor is a liquidation sequence run by the liquidated user
/// itself), zero-amount operations make a call that must be refused, and
/// price operations set the moved, zero or maximal price.
pub open spec fn step_plan(op: Operation, r: StepReadings) -> StepPlan {
    match op {
        Operation::Supply { user_idx, asset_idx, amount_percent } => call_with(
            capped_pct_of(r.wallet, amount_percent),
            |a: u128| RouterCall::Supply { user: user_idx, asset: asset_idx, amount: a, on_behalf_of: user_idx },
        ),
        Operation::SupplyOnBehalf { user_idx, recipient_idx, asset_idx, amount_percent } => call_with(
            capped_pct_of(r.wallet, amount_percent),
            |a: u128|
                RouterCall::Supply { user: user_idx, asset: asset_idx, amount: a, on_behalf_of: recipient_idx },
        ),
        Operation::Withdraw { user_idx, asset_idx, amount_percent } => call_with(
            pct_of(r.a_token, amount_percent),
            |a: u128| RouterCall::Withdraw { user: user_idx, asset: asset_idx, amount: a, to: user_idx },
        ),
        Operation::WithdrawAll { user_idx, asset_idx } => if r.a_token <= 0 {
            StepPlan::Skip
        } else {
            StepPlan::Call(
                RouterCall::Withdraw { user: user_idx, asset: asset_idx, amount: r.a_token as u128, to: user_idx },
            )
        },
        Operation::WithdrawToRecipient { user_idx, recipient_idx, asset_idx, amount_percent } => call_with(
            pct_of(r.a_token, amount_percent),
            |a: u128| RouterCall::Withdraw { user: user_idx, asset: asset_idx, amount: a, to: recipient_idx },
        ),
        Operation::Borrow { user_idx, asset_idx, amount_percent } => if r.collateral_total <= 0 {
            StepPlan::Skip
        } else {
            call_with(
                capped_pct_of(r.available, amount_percent),
                |a: u128| RouterCall::Borrow { user: user_idx, asset: asset_idx, amount: a, to: user_idx },
            )
        },
        Operation::BorrowToRecipient { user_idx, recipient_idx, asset_idx, amount_percent } => if r.collateral_total
            <= 0 {
            StepPlan::Skip
        } else {
            call_with(
                capped_pct_of(r.available, amount_percent),
                |a: u128| RouterCall::Borrow { user: user_idx, asset: asset_idx, amount: a, to: recipient_idx },
            )
        },
        Operation::Repay { user_idx, asset_idx, amount_percent } => call_with(
            repay_of(r.debt, r.wallet, amount_percent),
            |a: u128| RouterCall::Repay { payer: user_idx, asset: asset_idx, amount: a, on_behalf_of: user_idx },
        ),
        Operation::RepayAll { user_idx, asset_idx } => call_with(
            repay_all_of(r.debt, r.wallet),
            |a: u128| RouterCall::Repay { payer: user_idx, asset: asset_idx, amount: a, on_behalf_of: user_idx },
        ),
        Operation::RepayOnBehalf { payer_idx, borrower_idx, asset_idx, amount_percent } => call_with(
            repay_of(r.debt, r.wallet, amount_percent),
            |a: u128|
                RouterCall::Repay { payer: payer_idx, asset: asset_idx, amount: a, on_behalf_of: borrower_idx },
        ),
        Operation::SetCollateral { user_idx, asset_idx, use_as_collateral } => StepPlan::Call(
            RouterCall::SetCollateral { user: user_idx, asset: asset_idx, enabled: use_as_collateral },
        ),
        Operation::TimeWarp { seconds } => StepPlan::Call(RouterCall::AdvanceTime { seconds }),
        Operation::PriceChange { asset_idx, price_change_bps } => if r.price == 0 {
            StepPlan::Skip
        } else {
            StepPlan::Call(
                RouterCall::SetPrice {
                    asset: asset_idx,
                    price: clamp_price(r.price * (10000 + price_change_bps) / 10000) as u128,
                },
            )
        },
        Operation::Liquidate { liquidator_idx, user_idx, collateral_idx, debt_idx, amount_percent } =>
            if liquidator_idx == user_idx {
            StepPlan::Skip
        } else {
            call_with(
                cover_of(r.debt, r.a_token, amount_percent),
                |a: u128|
                    RouterCall::Liquidate {
                        liquidator: liquidator_idx,
                        user: user_idx,
                        collateral: collateral_idx,
                        debt: debt_idx,
                        amount: a,
                        receive_a_token: false,
                    },
            )
        },
        Operation::LiquidateReceiveAToken {
            liquidator_idx,
            user_idx,
            collateral_idx,
            debt_idx,
            amount_percent,
        } => if liquidator_idx == user_idx {
            StepPlan::Skip
        } else {
            call_with(
                cover_of(r.debt, r.a_token, amount_percent),
                |a: u128|
                    RouterCall::Liquidate {
                        liquidator: liquidator_idx,
                        user: user_idx,
                        collateral: collateral_idx,
                        debt: debt_idx,
                        amount: a,
                        receive_a_token: true,
                    },
            )
        },
        Operation::PrepareLiquidation { liquidator_idx, user_idx, collateral_idx, debt_idx } =>
            if liquidator_idx == user_idx || r.debt <= 0 {
            StepPlan::Skip
        } else {
            StepPlan::Call(
                RouterCall::PrepareLiquidation {
                    liquidator: liquidator_idx,
                    user: user_idx,
                    collateral: collateral_idx,
                    debt: debt_idx,
                    amount: (r.debt / 2) as u128,
                },
            )
        },
        Operation::SwapCollateral { user_idx, from_idx, to_idx, amount_percent } => if from_idx
            == to_idx {
            StepPlan::Skip
        } else {
            call_with(
                pct_of(r.a_token, amount_percent),
                |a: u128| RouterCall::SwapCollateral { user: user_idx, from: from_idx, to: to_idx, amount: a },
            )
        },
        Operation::ZeroAmountSupply { user_idx, asset_idx } => StepPlan::ExpectRefusal(
            RouterCall::Supply { user: user_idx, asset: asset_idx, amount: 0, on_behalf_of: user_idx },
        ),
        Operation::ZeroAmountBorrow { user_idx, asset_idx } => StepPlan::ExpectRefusal(
            RouterCall::Borrow { user: user_idx, asset: asset_idx, amount: 0, to: user_idx },
        ),
        Operation::ZeroAmountWithdraw { user_idx, asset_idx } => StepPlan::ExpectRefusal(
            RouterCall::Withdraw { user: user_idx, asset: asset_idx, amount: 0, to: user_idx },
        ),
        Operation::ZeroAmountRepay { user_idx, asset_idx } => StepPlan::ExpectRefusal(
            RouterCall::Repay { payer: user_idx, asset: asset_idx, amount: 0, on_behalf_of: user_idx },
        ),
        Operation::DustSupply { user_idx, asset_idx, dust_amount } => if r.wallet <= 0 {
            StepPlan::Skip
        } else {
            StepPlan::Call(
                RouterCall::Supply {
                    user: user_idx,
                    asset: asset_idx,
                    amount: min(dust_amount as int, DUST_THRESHOLD as int) as u128,
                    on_behalf_of: user_idx,
                },
            )
        },
        Operation::DustBorrow { user_idx, asset_idx, dust_amount } => if r.collateral_total <= 0 {
            StepPlan::Skip
        } else {
            StepPlan::Call(
                RouterCall::Borrow {
                    user: user_idx,
                    asset: asset_idx,
                    amount: min(dust_amount as int, DUST_THRESHOLD as int) as u128,
                    to: user_idx,
                },
            )
        },
        Operation::DustWithdraw { user_idx, asset_idx, dust_amount } => if r.a_token <= 0 {
            StepPlan::Skip
        } else {
            StepPlan::Call(
                RouterCall::Withdraw {
                    user: user_idx,
                    asset: asset_idx,
                    amount: min(min(dust_amount as int, DUST_THRESHOLD as int), r.a_token as int) as u128,
                    to: user_idx,
                },
            )
        },
        Operation::DustRepay { user_idx, asset_idx, dust_amount } => if r.debt <= 0 {
            StepPlan::Skip
        } else {
            StepPlan::Call(
                RouterCall::Repay {
                    payer: user_idx,
                    asset: asset_idx,
                    amount: min(dust_amount as int, DUST_THRESHOLD as int) as u128,
                    on_behalf_of: user_idx,
                },
            )
        },
        Operation::MaxAmountSupply { user_idx, asset_idx } => if r.wallet <= 0 {
            StepPlan::Skip
        } else {
            StepPlan::Call(
                RouterCall::Supply {
                    user: user_idx,
                    asset: asset_idx,
                    amount: r.wallet as u128,
                    on_behalf_of: user_idx,
                },
            )
        },
        Operation::MaxAmountBorrow { user_idx, asset_idx } => if r.available <= 0 {
            StepPlan::Skip
        } else {
            StepPlan::Call(
                RouterCall::Borrow { user: user_idx, asset: asset_idx, amount: r.available as u128, to: user_idx },
            )
        },
        Operation::PriceToZero { asset_idx } => StepPlan::Call(
            RouterCall::SetPrice { asset: asset_idx, price: ZERO_PRICE },
        ),
        Operation::PriceToMax { asset_idx } => StepPlan::Call(
            RouterCall::SetPrice { asset: asset_idx, price: MAX_PRICE },
        ),
        Operation::PauseProtocol => StepPlan::Call(RouterCall::Pause),
        Operation::UnpauseProtocol => StepPlan::Call(RouterCall::Unpause),
        Operation::CollectProtocolReserves { asset_idx } => StepPlan::Call(
            RouterCall::CollectReserves { asset: asset_idx },
        ),
        Operation::SelfLiquidationAttempt { user_idx, collateral_idx, debt_idx } => if r.debt <= 0 {
            StepPlan::Skip
        } else {
            StepPlan::Call(
                RouterCall::Liquidate {
                    liquidator: user_idx,
                    user: user_idx,
                    collateral: collateral_idx,
                    debt: debt_idx,
                    amount: (r.debt / 2) as u128,
                    receive_a_token: false,
                },
            )
        },
        Operation::MultiAssetLiquidation { liquidator_idx, user_idx, collateral_idx, debt_idx } =>
            if liquidator_idx == user_idx || r.debt <= 0 || r.a_token <= 0 {
            StepPlan::Skip
        } else {
            StepPlan::Call(
                RouterCall::Liquidate {
                    liquidator: liquidator_idx,
                    user: user_idx,
                    collateral: collateral_idx,
                    debt: debt_idx,
                    amount: (r.debt / 2) as u128,
                    receive_a_token: false,
                },
            )
        },
        Operation::TransferAToken { from_idx, to_idx, asset_idx, amount_percent } => if from_idx
            == to_idx {
            StepPlan::Skip
        } else {
            call_with(
                pct_of(r.a_token, amount_percent),
                |a: u128| RouterCall::TransferAToken { from: from_idx, to: to_idx, asset: asset_idx, amount: a },
            )
        },
        Operation::SetReserveSupplyCap { asset_idx, cap } => StepPlan::Call(
            RouterCall::SetSupplyCap { asset: asset_idx, cap: cap as u128 },
        ),
        Operation::SetReserveBorrowCap { asset_idx, cap } => StepPlan::Call(
            RouterCall::SetBorrowCap { asset: asset_idx, cap: cap as u128 },
        ),
        Operation::SetReserveDebtCeiling { asset_idx, ceiling } => StepPlan::Call(
            RouterCall::SetDebtCeiling { asset: asset_idx, ceiling: ceiling as u128 },
        ),
        Operation::ProposePoolAdmin { new_admin_idx } => StepPlan::Call(
            RouterCall::ProposePoolAdmin { new_admin: new_admin_idx },
        ),
        Operation::AcceptPoolAdmin { pending_admin_idx } => StepPlan::Call(
            RouterCall::AcceptPoolAdmin { pending_admin: pending_admin_idx },
        ),
        Operation::CreateAndLiquidate { liquidator_idx, user_idx, .. } => if liquidator_idx
            == user_idx {
            StepPlan::Skip
        } else {
            StepPlan::Sequence
        },
        Operation::ExecuteLiquidation { liquidator_idx, user_idx, .. } => if liquidator_idx
            == user_idx {
            StepPlan::Skip
        } else {
            StepPlan::Sequence
        },
        Operation::FullMultiAssetLiquidation { liquidator_idx, user_idx } => if liquidator_idx
            == user_idx {
            StepPlan::Skip
        } else {
            StepPlan::Sequence
        },
        _ => StepPlan::Sequence,
    }
}

/// The amount arithmetic of an operation's plan fits u128 (the executor
/// cannot make the call otherwise).
pub open spec fn step_fits(op: Operation, r: StepReadings) -> bool {
    match op {
        Operation::Supply { amount_percent, .. } => r.wallet > 0 ==> r.wallet * amount_percent
            <= u128::MAX,
        Operation::SupplyOnBehalf { amount_percent, .. } => r.wallet > 0 ==> r.wallet
            * amount_percent <= u128::MAX,
        Operation::Withdraw { amount_percent, .. } => r.a_token > 0 ==> r.a_token * amount_percent
            <= u128::MAX,
        Operation::WithdrawToRecipient { amount_percent, .. } => r.a_token > 0 ==> r.a_token
            * amount_percent <= u128::MAX,
        Operation::Borrow { amount_percent, .. } => r.available > 0 ==> r.available
            * amount_percent <= u128::MAX,
        Operation::BorrowToRecipient { amount_percent, .. } => r.available > 0 ==> r.available
            * amount_percent <= u128::MAX,
        Operation::Repay { amount_percent, .. } => r.debt > 0 ==> r.debt * amount_percent
            <= u128::MAX,
        Operation::RepayOnBehalf { amount_percent, .. } => r.debt > 0 ==> r.debt * amount_percent
            <= u128::MAX,
        Operation::PriceChange { price_change_bps, .. } => r.price > 0 ==> 10000
            + price_change_bps >= 0 && r.price * (10000 + price_change_bps) <= u128::MAX,
        Operation::Liquidate { liquidator_idx, user_idx, amount_percent, .. } => liquidator_idx
            != user_idx && r.debt > 0 ==> r.debt * amount_percent <= u128::MAX && r.debt * 5000
            <= u128::MAX,
        Operation::LiquidateReceiveAToken { liquidator_idx, user_idx, amount_percent, .. } =>
            liquidator_idx != user_idx && r.debt > 0 ==> r.debt * amount_percent <= u128::MAX
            && r.debt * 5000 <= u128::MAX,
        Operation::SwapCollateral { from_idx, to_idx, amount_percent, .. } => from_idx != to_idx
            && r.a_token > 0 ==> r.a_token * amount_percent <= u128::MAX,
        Operation::TransferAToken { from_idx, to_idx, amount_percent, .. } => from_idx != to_idx
            && r.a_token > 0 ==> r.a_token * amount_percent <= u128::MAX,
        _ => true,
    }
}

fn call_or_skip(amount: Option<u128>, call: RouterCall) -> (p: StepPlan)
    ensures
        p == (if amount is Some {
            StepPlan::Call(call)
        } else {
            StepPlan::Skip
        }),
{
    match amount {
        Some(_) => StepPlan::Call(call),
        None => StepPlan::Skip,
    }
}

/// Who a single-call transfer involves: the sender, the asset and the
/// beneficiary of the call are the operation's own.  A supply on behalf is
/// credited to the recipient, a withdrawal or borrow to a recipient pays
/// the recipient, a repayment on behalf is paid by the payer against the
/// borrower's debt; the plain forms act for the user themselves.
pub proof fn lemma_plan_parties(op: Operation, r: StepReadings)
    ensures
        op matches Operation::Supply { user_idx, asset_idx, .. } ==> (step_plan(op, r) is Call
            ==> (step_plan(op, r) matches StepPlan::Call(RouterCall::Supply { user, asset, on_behalf_of, .. })
            && user == user_idx && asset == asset_idx && on_behalf_of == user_idx)),
        op matches Operation::SupplyOnBehalf { user_idx, recipient_idx, asset_idx, .. } ==> (step_plan(
            op,
            r,
        ) is Call ==> (step_plan(op, r) matches StepPlan::Call(
            RouterCall::Supply { user, asset, on_behalf_of, .. },
        ) && user == user_idx && asset == asset_idx && on_behalf_of == recipient_idx)),
        op matches Operation::Withdraw { user_idx, asset_idx, .. } ==> (step_plan(op, r) is Call
            ==> (step_plan(op, r) matches StepPlan::Call(RouterCall::Withdraw { user, asset, to, .. })
            && user == user_idx && asset == asset_idx && to == user_idx)),
        op matches Operation::WithdrawAll { user_idx, asset_idx } ==> (step_plan(op, r) is Call
            ==> (step_plan(op, r) matches StepPlan::Call(RouterCall::Withdraw { user, asset, to, .. })
            && user == user_idx && asset == asset_idx && to == user_idx)),
        op matches Operation::WithdrawToRecipient { user_idx, recipient_idx, asset_idx, .. } ==> (
        step_plan(op, r) is Call ==> (step_plan(op, r) matches StepPlan::Call(
            RouterCall::Withdraw { user, asset, to, .. },
        ) && user == user_idx && asset == asset_idx && to == recipient_idx)),
        op matches Operation::Borrow { user_idx, asset_idx, .. } ==> (step_plan(op, r) is Call
            ==> (step_plan(op, r) matches StepPlan::Call(RouterCall::Borrow { user, asset, to, .. })
            && user == user_idx && asset == asset_idx && to == user_idx)),
        op matches Operation::BorrowToRecipient { user_idx, recipient_idx, asset_idx, .. } ==> (
        step_plan(op, r) is Call ==> (step_plan(op, r) matches StepPlan::Call(
            RouterCall::Borrow { user, asset, to, .. },
        ) && user == user_idx && asset == asset_idx && to == recipient_idx)),
        op matches Operation::Repay { user_idx, asset_idx, .. } ==> (step_plan(op, r) is Call
            ==> (step_plan(op, r) matches StepPlan::Call(RouterCall::Repay { payer, asset, on_behalf_of, .. })
            && payer == user_idx && asset == asset_idx && on_behalf_of == user_idx)),
        op matches Operation::RepayAll { user_idx, asset_idx } ==> (step_plan(op, r) is Call
            ==> (step_plan(op, r) matches StepPlan::Call(RouterCall::Repay { payer, asset, on_behalf_of, .. })
            && payer == user_idx && asset == asset_idx && on_behalf_of == user_idx)),
        op matches Operation::RepayOnBehalf { payer_idx, borrower_idx, asset_idx, .. } ==> (step_plan(
            op,
            r,
        ) is Call ==> (step_plan(op, r) matches StepPlan::Call(
            RouterCall::Repay { payer, asset, on_behalf_of, .. },
        ) && payer == payer_idx && asset == asset_idx && on_behalf_of == borrower_idx)),
{
}

/// Acting for someone else moves the same amount as acting for oneself: a
/// supply on behalf, a withdrawal or borrow to a recipient and a repayment
/// on behalf make a call exactly when the plain form does, for the same
/// amount.
pub proof fn lemma_plan_on_behalf_same_amount(
    user_idx: u8,
    other_idx: u8,
    asset_idx: u8,
    amount_percent: u8,
    r: StepReadings,
)
    ensures
        ({
            let own = step_plan(Operation::Supply { user_idx, asset_idx, amount_percent }, r);
            let other = step_plan(
                Operation::SupplyOnBehalf { user_idx, recipient_idx: other_idx, asset_idx, amount_percent },
                r,
            );
            &&& (own is Call <==> other is Call)
            &&& own matches StepPlan::Call(RouterCall::Supply { amount: x, .. }) ==> (other matches StepPlan::Call(
                RouterCall::Supply { amount: y, .. },
            ) && x == y)
        }),
        ({
            let own = step_plan(Operation::Withdraw { user_idx, asset_idx, amount_percent }, r);
            let other = step_plan(
                Operation::WithdrawToRecipient { user_idx, recipient_idx: other_idx, asset_idx, amount_percent },
                r,
            );
            &&& (own is Call <==> other is Call)
            &&& own matches StepPlan::Call(RouterCall::Withdraw { amount: x, .. }) ==> (other matches StepPlan::Call(
                RouterCall::Withdraw { amount: y, .. },
            ) && x == y)
        }),
        ({
            let own = step_plan(Operation::Borrow { user_idx, asset_idx, amount_percent }, r);
            let other = step_plan(
                Operation::BorrowToRecipient { user_idx, recipient_idx: other_idx, asset_idx, amount_percent },
                r,
            );
            &&& (own is Call <==> other is Call)
            &&& own matches StepPlan::Call(RouterCall::Borrow { amount: x, .. }) ==> (other matches StepPlan::Call(
                RouterCall::Borrow { amount: y, .. },
            ) && x == y)
        }),
        ({
            let own = step_plan(Operation::Repay { user_idx, asset_idx, amount_percent }, r);
            let other = step_plan(
                Operation::RepayOnBehalf { payer_idx: user_idx, borrower_idx: other_idx, asset_idx, amount_percent },
                r,
            );
            &&& (own is Call <==> other is Call)
            &&& own matches StepPlan::Call(RouterCall::Repay { amount: x, .. }) ==> (other matches StepPlan::Call(
                RouterCall::Repay { amount: y, .. },
            ) && x == y)
        }),
{
}

proof fn lemma_percent_of_positive(balance: int, percent: int)
    requires
        balance > 0,
        0 <= percent,
    ensures
        percent_amount_of(balance, percent) >= 1,
        percent <= 100 ==> percent_amount_of(balance, percent) <= balance,
{
    assert(percent <= 100 ==> balance * percent / 100 <= balance) by (nonlinear_arith)
        requires
            balance > 0,
            0 <= percent,
    ;
}

/// How much a single call moves (for readings the executor can act on):
/// nothing is called from an empty balance;
/// a supply, withdrawal, borrow or repayment moves at least 1 and, for a
/// percentage of at most 100, no more than the balance it is taken from
/// (the wallet, the aTokens, the available liquidity, the wallet); a
/// repayment never exceeds the wallet; a liquidation covers at most half of
/// the debt read, for the operation's own parties, and only when the
/// liquidator is not the user.
pub proof fn lemma_plan_amounts(op: Operation, r: StepReadings)
    requires
        step_fits(op, r),
    ensures
        op matches Operation::Supply { amount_percent, .. } ==> (step_plan(op, r) matches StepPlan::Call(
            RouterCall::Supply { amount, .. },
        ) ==> (r.wallet > 0 && amount >= 1 && (amount_percent <= 100 ==> amount <= r.wallet))),
        op matches Operation::Withdraw { amount_percent, .. } ==> (step_plan(op, r) matches StepPlan::Call(
            RouterCall::Withdraw { amount, .. },
        ) ==> (r.a_token > 0 && amount >= 1 && (amount_percent <= 100 ==> amount <= r.a_token))),
        op matches Operation::Borrow { amount_percent, .. } ==> (step_plan(op, r) matches StepPlan::Call(
            RouterCall::Borrow { amount, .. },
        ) ==> (r.collateral_total > 0 && r.available > 0 && amount >= 1 && (amount_percent <= 100 ==> amount
            <= r.available))),
        op matches Operation::Repay { .. } ==> (step_plan(op, r) matches StepPlan::Call(
            RouterCall::Repay { amount, .. },
        ) ==> (r.debt > 0 && r.wallet > 0 && 1 <= amount <= r.wallet)),
        op matches Operation::Liquidate { liquidator_idx, user_idx, collateral_idx, debt_idx, .. } ==> (
        step_plan(op, r) matches StepPlan::Call(
            RouterCall::Liquidate { liquidator, user, collateral, debt, amount, receive_a_token },
        ) ==> (liquidator == liquidator_idx && user == user_idx && collateral == collateral_idx && debt
            == debt_idx && !receive_a_token && liquidator_idx != user_idx && r.debt > 0 && r.a_token > 0
            && 2 * amount <= r.debt)),
{
    match op {
        Operation::Supply { amount_percent, .. } => {
            if r.wallet > 0 {
                lemma_percent_of_positive(r.wallet as int, amount_percent as int);
            }
        },
        Operation::Withdraw { amount_percent, .. } => {
            if r.a_token > 0 {
                lemma_percent_of_positive(r.a_token as int, amount_percent as int);
            }
        },
        Operation::Borrow { amount_percent, .. } => {
            if r.available > 0 {
                lemma_percent_of_positive(r.available as int, amount_percent as int);
            }
        },
        Operation::Liquidate { amount_percent, .. } => {
            if r.debt > 0 {
                let d = r.debt as int;
                assert(d * 5000 / 10000 == d / 2) by (nonlinear_arith)
                    requires
                        d > 0,
                ;
            }
        },
        _ => {},
    }
}

/// A price change moves the price the way its sign says, within the price
/// range: up (or not at all) for a positive change, down (or not at all)
/// for a negative one, on the operation's own asset; nothing is set from a
/// zero price.
pub proof fn lemma_plan_price_change(asset_idx: u8, price_change_bps: i16, r: StepReadings)
    requires
        MIN_PRICE <= r.price <= MAX_PRICE,
    ensures
        step_plan(Operation::PriceChange { asset_idx, price_change_bps }, r) matches StepPlan::Call(
            RouterCall::SetPrice { asset, price },
        ) ==> (asset == asset_idx && MIN_PRICE <= price <= MAX_PRICE && (price_change_bps >= 0 ==> price
            >= r.price) && (price_change_bps <= 0 ==> price <= r.price)),
{
    let p = r.price as int;
    let f = 10000 + price_change_bps as int;
    assert(price_change_bps >= 0 ==> p * f / 10000 >= p) by (nonlinear_arith)
        requires
            p >= 0,
            f == 10000 + price_change_bps,
    ;
    assert(price_change_bps <= 0 ==> p * f / 10000 <= p) by (nonlinear_arith)
        requires
            p >= 0,
            f == 10000 + price_change_bps,
    ;
}

/// Decide what the executor does for `op`, given the balances it read.
pub fn plan_step(op: &Operation, r: &StepReadings) -> (p: StepPlan)
    requires
        step_fits(*op, *r),
    ensures
        p == step_plan(*op, *r),
{
    match *op {
        Operation::Supply { user_idx, asset_idx, amount_percent } => {
            let a = capped_percent_amount(r.wallet, amount_percent);
            let amount = match a { Some(x) => x, None => 0 };
            call_or_skip(a, RouterCall::Supply { user: user_idx, asset: asset_idx, amount, on_behalf_of: user_idx })
        },
        Operation::SupplyOnBehalf { user_idx, recipient_idx, asset_idx, amount_percent } => {
            let a = capped_percent_amount(r.wallet, amount_percent);
            let amount = match a { Some(x) => x, None => 0 };
            call_or_skip(
                a,
                RouterCall::Supply { user: user_idx, asset: asset_idx, amount, on_behalf_of: recipient_idx },
            )
        },
        Operation::Withdraw { user_idx, asset_idx, amount_percent } => {
            let a = percent_amount(r.a_token, amount_percent);
            let amount = match a { Some(x) => x, None => 0 };
            call_or_skip(a, RouterCall::Withdraw { user: user_idx, asset: asset_idx, amount, to: user_idx })
        },
        Operation::WithdrawAll { user_idx, asset_idx } => {
            if r.a_token <= 0 {
                StepPlan::Skip
            } else {
                StepPlan::Call(
                    RouterCall::Withdraw {
                        user: user_idx,
                        asset: asset_idx,
                        amount: r.a_token as u128,
                        to: user_idx,
                    },
                )
            }
        },
        Operation::WithdrawToRecipient { user_idx, recipient_idx, asset_idx, amount_percent } => {
            let a = percent_amount(r.a_token, amount_percent);
            let amount = match a { Some(x) => x, None => 0 };
            call_or_skip(a, RouterCall::Withdraw { user: user_idx, asset: asset_idx, amount, to: recipient_idx })
        },
        Operation::Borrow { user_idx, asset_idx, amount_percent } => {
            if r.collateral_total <= 0 {
                StepPlan::Skip
            } else {
                let a = capped_percent_amount(r.available, amount_percent);
                let amount = match a { Some(x) => x, None => 0 };
                call_or_skip(a, RouterCall::Borrow { user: user_idx, asset: asset_idx, amount, to: user_idx })
            }
        },
        Operation::BorrowToRecipient { user_idx, recipient_idx, asset_idx, amount_percent } => {
            if r.collateral_total <= 0 {
                StepPlan::Skip
            } else {
                let a = capped_percent_amount(r.available, amount_percent);
                let amount = match a { Some(x) => x, None => 0 };
                call_or_skip(a, RouterCall::Borrow { user: user_idx, asset: asset_idx, amount, to: recipient_idx })
            }
        },
        Operation::Repay { user_idx, asset_idx, amount_percent } => {
            let a = repay_amount(r.debt, r.wallet, amount_percent);
            let amount = match a { Some(x) => x, None => 0 };
            call_or_skip(a, RouterCall::Repay { payer: user_idx, asset: asset_idx, amount, on_behalf_of: user_idx })
        },
        Operation::RepayAll { user_idx, asset_idx } => {
            let a = repay_all_amount(r.debt, r.wallet);
            let amount = match a { Some(x) => x, None => 0 };
            call_or_skip(a, RouterCall::Repay { payer: user_idx, asset: asset_idx, amount, on_behalf_of: user_idx })
        },
        Operation::RepayOnBehalf { payer_idx, borrower_idx, asset_idx, amount_percent } => {
            let a = repay_amount(r.debt, r.wallet, amount_percent);
            let amount = match a { Some(x) => x, None => 0 };
            call_or_skip(
                a,
                RouterCall::Repay { payer: payer_idx, asset: asset_idx, amount, on_behalf_of: borrower_idx },
            )
        },
        Operation::SetCollateral { user_idx, asset_idx, use_as_collateral } => StepPlan::Call(
            RouterCall::SetCollateral { user: user_idx, asset: asset_idx, enabled: use_as_collateral },
        ),
        Operation::TimeWarp { seconds } => StepPlan::Call(RouterCall::AdvanceTime { seconds }),
        Operation::PriceChange { asset_idx, price_change_bps } => {
            match changed_price(r.price, price_change_bps) {
                Some(price) => StepPlan::Call(RouterCall::SetPrice { asset: asset_idx, price }),
                None => StepPlan::Skip,
            }
        },
        Operation::Liquidate { liquidator_idx, user_idx, collateral_idx, debt_idx, amount_percent } => {
            if liquidator_idx == user_idx {
                StepPlan::Skip
            } else {
                let a = liquidation_cover(r.debt, r.a_token, amount_percent);
                let amount = match a { Some(x) => x, None => 0 };
                call_or_skip(
                    a,
                    RouterCall::Liquidate {
                        liquidator: liquidator_idx,
                        user: user_idx,
                        collateral: collateral_idx,
                        debt: debt_idx,
                        amount,
                        receive_a_token: false,
                    },
                )
            }
        },
        Operation::LiquidateReceiveAToken {
            liquidator_idx,
            user_idx,
            collateral_idx,
            debt_idx,
            amount_percent,
        } => {
            if liquidator_idx == user_idx {
                StepPlan::Skip
            } else {
                let a = liquidation_cover(r.debt, r.a_token, amount_percent);
                let amount = match a { Some(x) => x, None => 0 };
                call_or_skip(
                    a,
                    RouterCall::Liquidate {
                        liquidator: liquidator_idx,
                        user: user_idx,
                        collateral: collateral_idx,
                        debt: debt_idx,
                        amount,
                        receive_a_token: true,
                    },
                )
            }
        },
        Operation::PrepareLiquidation { liquidator_idx, user_idx, collateral_idx, debt_idx } => {
            if liquidator_idx == user_idx || r.debt <= 0 {
                StepPlan::Skip
            } else {
                StepPlan::Call(
                    RouterCall::PrepareLiquidation {
                        liquidator: liquidator_idx,
                        user: user_idx,
                        collateral: collateral_idx,
                        debt: debt_idx,
                        amount: (r.debt / 2) as u128,
                    },
                )
            }
        },
        Operation::SwapCollateral { user_idx, from_idx, to_idx, amount_percent } => {
            if from_idx == to_idx {
                StepPlan::Skip
            } else {
                let a = percent_amount(r.a_token, amount_percent);
                let amount = match a { Some(x) => x, None => 0 };
                call_or_skip(a, RouterCall::SwapCollateral { user: user_idx, from: from_idx, to: to_idx, amount })
            }
        },
        Operation::ZeroAmountSupply { user_idx, asset_idx } => StepPlan::ExpectRefusal(
            RouterCall::Supply { user: user_idx, asset: asset_idx, amount: 0, on_behalf_of: user_idx },
        ),
        Operation::ZeroAmountBorrow { user_idx, asset_idx } => StepPlan::ExpectRefusal(
            RouterCall::Borrow { user: user_idx, asset: asset_idx, amount: 0, to: user_idx },
        ),
        Operation::ZeroAmountWithdraw { user_idx, asset_idx } => StepPlan::ExpectRefusal(
            RouterCall::Withdraw { user: user_idx, asset: asset_idx, amount: 0, to: user_idx },
        ),
        Operation::ZeroAmountRepay { user_idx, asset_idx } => StepPlan::ExpectRefusal(
            RouterCall::Repay { payer: user_idx, asset: asset_idx, amount: 0, on_behalf_of: user_idx },
        ),
        Operation::DustSupply { user_idx, asset_idx, dust_amount: d } => {
            if r.wallet <= 0 {
                StepPlan::Skip
            } else {
                StepPlan::Call(
                    RouterCall::Supply { user: user_idx, asset: asset_idx, amount: dust_amount(d), on_behalf_of: user_idx },
                )
            }
        },
        Operation::DustBorrow { user_idx, asset_idx, dust_amount: d } => {
            if r.collateral_total <= 0 {
                StepPlan::Skip
            } else {
                StepPlan::Call(RouterCall::Borrow { user: user_idx, asset: asset_idx, amount: dust_amount(d), to: user_idx })
            }
        },
        Operation::DustWithdraw { user_idx, asset_idx, dust_amount: d } => {
            match dust_withdraw_amount(d, r.a_token) {
                Some(amount) => StepPlan::Call(
                    RouterCall::Withdraw { user: user_idx, asset: asset_idx, amount, to: user_idx },
                ),
                None => StepPlan::Skip,
            }
        },
        Operation::DustRepay { user_idx, asset_idx, dust_amount: d } => {
            if r.debt <= 0 {
                StepPlan::Skip
            } else {
                StepPlan::Call(
                    RouterCall::Repay { payer: user_idx, asset: asset_idx, amount: dust_amount(d), on_behalf_of: user_idx },
                )
            }
        },
        Operation::MaxAmountSupply { user_idx, asset_idx } => {
            if r.wallet <= 0 {
                StepPlan::Skip
            } else {
                StepPlan::Call(
                    RouterCall::Supply { user: user_idx, asset: asset_idx, amount: r.wallet as u128, on_behalf_of: user_idx },
                )
            }
        },
        Operation::MaxAmountBorrow { user_idx, asset_idx } => {
            if r.available <= 0 {
                StepPlan::Skip
            } else {
                StepPlan::Call(
                    RouterCall::Borrow { user: user_idx, asset: asset_idx, amount: r.available as u128, to: user_idx },
                )
            }
        },
        Operation::PriceToZero { asset_idx } => StepPlan::Call(
            RouterCall::SetPrice { asset: asset_idx, price: ZERO_PRICE },
        ),
        Operation::PriceToMax { asset_idx } => StepPlan::Call(
            RouterCall::SetPrice { asset: asset_idx, price: MAX_PRICE },
        ),
        Operation::PauseProtocol => StepPlan::Call(RouterCall::Pause),
        Operation::UnpauseProtocol => StepPlan::Call(RouterCall::Unpause),
        Operation::CollectProtocolReserves { asset_idx } => StepPlan::Call(
            RouterCall::CollectReserves { asset: asset_idx },
        ),
        Operation::SelfLiquidationAttempt { user_idx, collateral_idx, debt_idx } => {
            if r.debt <= 0 {
                StepPlan::Skip
            } else {
                StepPlan::Call(
                    RouterCall::Liquidate {
                        liquidator: user_idx,
                        user: user_idx,
                        collateral: collateral_idx,
                        debt: debt_idx,
                        amount: (r.debt / 2) as u128,
                        receive_a_token: false,
                    },
                )
            }
        },
        Operation::MultiAssetLiquidation { liquidator_idx, user_idx, collateral_idx, debt_idx } => {
            if liquidator_idx == user_idx || r.debt <= 0 || r.a_token <= 0 {
                StepPlan::Skip
            } else {
                StepPlan::Call(
                    RouterCall::Liquidate {
                        liquidator: liquidator_idx,
                        user: user_idx,
                        collateral: collateral_idx,
                        debt: debt_idx,
                        amount: (r.debt / 2) as u128,
                        receive_a_token: false,
                    },
                )
            }
        },
        Operation::TransferAToken { from_idx, to_idx, asset_idx, amount_percent } => {
            if from_idx == to_idx {
                StepPlan::Skip
            } else {
                let a = percent_amount(r.a_token, amount_percent);
                let amount = match a { Some(x) => x, None => 0 };
                call_or_skip(a, RouterCall::TransferAToken { from: from_idx, to: to_idx, asset: asset_idx, amount })
            }
        },
        Operation::SetReserveSupplyCap { asset_idx, cap } => StepPlan::Call(
            RouterCall::SetSupplyCap { asset: asset_idx, cap: cap as u128 },
        ),
        Operation::SetReserveBorrowCap { asset_idx, cap } => StepPlan::Call(
            RouterCall::SetBorrowCap { asset: asset_idx, cap: cap as u128 },
        ),
        Operation::SetReserveDebtCeiling { asset_idx, ceiling } => StepPlan::Call(
            RouterCall::SetDebtCeiling { asset: asset_idx, ceiling: ceiling as u128 },
        ),
        Operation::ProposePoolAdmin { new_admin_idx } => StepPlan::Call(
            RouterCall::ProposePoolAdmin { new_admin: new_admin_idx },
        ),
        Operation::AcceptPoolAdmin { pending_admin_idx } => StepPlan::Call(
            RouterCall::AcceptPoolAdmin { pending_admin: pending_admin_idx },
        ),
        Operation::CreateAndLiquidate { liquidator_idx, user_idx, .. } => {
            if liquidator_idx == user_idx {
                StepPlan::Skip
            } else {
                StepPlan::Sequence
            }
        },
        Operation::ExecuteLiquidation { liquidator_idx, user_idx, .. } => {
            if liquidator_idx == user_idx {
                StepPlan::Skip
            } else {
                StepPlan::Sequence
            }
        },
        Operation::FullMultiAssetLiquidation { liquidator_idx, user_idx } => {
            if liquidator_idx == user_idx {
                StepPlan::Skip
            } else {
                StepPlan::Sequence
            }
        },
        _ => StepPlan::Sequence,
    }
}

} // verus!
