use k2_router_fuzz::common::constants::MAX_PRICE;
use k2_router_fuzz::common::dispatch::plan_step;
use k2_router_fuzz::common::dispatch::RouterCall;
use k2_router_fuzz::common::dispatch::StepPlan;
use k2_router_fuzz::common::dispatch::StepReadings;
use k2_router_fuzz::common::operations::Operation;

fn readings() -> StepReadings {
    StepReadings {
        wallet: 1000,
        a_token: 400,
        debt: 300,
        collateral_total: 500,
        available: 2000,
        price: 1_000_000_000_000,
    }
}

#[test]
fn supply_and_withdraw_amounts() {
    let r = readings();
    assert_eq!(
        plan_step(&Operation::Supply { user_idx: 1, asset_idx: 2, amount_percent: 10 }, &r),
        StepPlan::Call(RouterCall::Supply { user: 1, asset: 2, amount: 100, on_behalf_of: 1 })
    );
    assert_eq!(
        plan_step(&Operation::WithdrawToRecipient { user_idx: 1, recipient_idx: 3, asset_idx: 2, amount_percent: 50 }, &r),
        StepPlan::Call(RouterCall::Withdraw { user: 1, asset: 2, amount: 200, to: 3 })
    );
    assert_eq!(
        plan_step(&Operation::WithdrawAll { user_idx: 1, asset_idx: 2 }, &r),
        StepPlan::Call(RouterCall::Withdraw { user: 1, asset: 2, amount: 400, to: 1 })
    );
    let mut empty = r;
    empty.wallet = 0;
    assert_eq!(plan_step(&Operation::Supply { user_idx: 1, asset_idx: 2, amount_percent: 10 }, &empty), StepPlan::Skip);
}

#[test]
fn borrow_needs_collateral() {
    let r = readings();
    assert_eq!(
        plan_step(&Operation::BorrowToRecipient { user_idx: 0, recipient_idx: 4, asset_idx: 1, amount_percent: 5 }, &r),
        StepPlan::Call(RouterCall::Borrow { user: 0, asset: 1, amount: 100, to: 4 })
    );
    let mut bare = r;
    bare.collateral_total = 0;
    assert_eq!(plan_step(&Operation::Borrow { user_idx: 0, asset_idx: 1, amount_percent: 5 }, &bare), StepPlan::Skip);
}

#[test]
fn repayments() {
    let r = readings();
    assert_eq!(
        plan_step(&Operation::RepayOnBehalf { payer_idx: 5, borrower_idx: 6, asset_idx: 0, amount_percent: 50 }, &r),
        StepPlan::Call(RouterCall::Repay { payer: 5, asset: 0, amount: 150, on_behalf_of: 6 })
    );
    assert_eq!(
        plan_step(&Operation::RepayAll { user_idx: 6, asset_idx: 0 }, &r),
        StepPlan::Call(RouterCall::Repay { payer: 6, asset: 0, amount: 300, on_behalf_of: 6 })
    );
}

#[test]
fn liquidation_guards_and_flags() {
    let r = readings();
    assert_eq!(
        plan_step(&Operation::Liquidate { liquidator_idx: 2, user_idx: 2, collateral_idx: 0, debt_idx: 1, amount_percent: 50 }, &r),
        StepPlan::Skip
    );
    // 80% of 300 = 240, capped by the close factor at 150
    assert_eq!(
        plan_step(
            &Operation::LiquidateReceiveAToken { liquidator_idx: 3, user_idx: 2, collateral_idx: 0, debt_idx: 1, amount_percent: 80 },
            &r
        ),
        StepPlan::Call(RouterCall::Liquidate { liquidator: 3, user: 2, collateral: 0, debt: 1, amount: 150, receive_a_token: true })
    );
    assert_eq!(
        plan_step(&Operation::SelfLiquidationAttempt { user_idx: 2, collateral_idx: 0, debt_idx: 1 }, &r),
        StepPlan::Call(RouterCall::Liquidate { liquidator: 2, user: 2, collateral: 0, debt: 1, amount: 150, receive_a_token: false })
    );
}

#[test]
fn zero_amounts_must_be_refused() {
    let r = readings();
    assert_eq!(
        plan_step(&Operation::ZeroAmountRepay { user_idx: 1, asset_idx: 3 }, &r),
        StepPlan::ExpectRefusal(RouterCall::Repay { payer: 1, asset: 3, amount: 0, on_behalf_of: 1 })
    );
}

#[test]
fn prices_dust_and_sequences() {
    let r = readings();
    assert_eq!(
        plan_step(&Operation::PriceChange { asset_idx: 1, price_change_bps: -500 }, &r),
        StepPlan::Call(RouterCall::SetPrice { asset: 1, price: 950_000_000_000 })
    );
    assert_eq!(
        plan_step(&Operation::PriceToMax { asset_idx: 1 }, &r),
        StepPlan::Call(RouterCall::SetPrice { asset: 1, price: MAX_PRICE })
    );
    assert_eq!(
        plan_step(&Operation::DustWithdraw { user_idx: 1, asset_idx: 1, dust_amount: 90 }, &r),
        StepPlan::Call(RouterCall::Withdraw { user: 1, asset: 1, amount: 50, to: 1 })
    );
    assert_eq!(
        plan_step(&Operation::FirstDepositorAttack { attacker_idx: 0, victim_idx: 1, asset_idx: 2 }, &r),
        StepPlan::Sequence
    );
}

#[test]
fn liquidation_sequences_refuse_self_liquidation() {
    let r = readings();
    assert_eq!(
        plan_step(&Operation::CreateAndLiquidate { liquidator_idx: 4, user_idx: 4, collateral_idx: 0, debt_idx: 1 }, &r),
        StepPlan::Skip
    );
    assert_eq!(plan_step(&Operation::FullMultiAssetLiquidation { liquidator_idx: 3, user_idx: 3 }, &r), StepPlan::Skip);
    assert_eq!(
        plan_step(&Operation::ExecuteLiquidation { liquidator_idx: 1, user_idx: 2, collateral_idx: 0, debt_idx: 1, amount_percent: 5 }, &r),
        StepPlan::Sequence
    );
}
