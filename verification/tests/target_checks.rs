use k2_router_fuzz::common::mocks::MockFlashLoanReceiver;
use k2_router_fuzz::common::mocks::NonRepayingFlashLoanReceiver;
use k2_router_fuzz::common::mocks::OracleManipulatingReceiver;
use k2_router_fuzz::common::mocks::ReentrantFlashLoanReceiver;
use k2_router_fuzz::common::mocks::ReentrantRepayLiquidationReceiver;
use k2_router_fuzz::common::mocks::StateManipulatingReceiver;
use k2_router_fuzz::targets::economic::check_rate_invariants;
use k2_router_fuzz::targets::economic::check_rate_utilization_relationship;
use k2_router_fuzz::targets::economic::EconomicSnapshot;
use k2_router_fuzz::targets::economic::RateHistory;
use k2_router_fuzz::targets::flash_loan::receiver_funding;
use k2_router_fuzz::targets::flash_loan::ConfigurableReceiver;
use k2_router_fuzz::targets::flash_loan::ReceiverAction;
use k2_router_fuzz::targets::flash_loan::ReceiverBehavior;
use k2_router_fuzz::targets::lending_ops::process_amount;
use k2_router_fuzz::targets::lending_ops::AccountingSnapshot;
use k2_router_fuzz::targets::lending_ops::AccountingTracker;
use k2_router_fuzz::targets::lending_ops::AccountingViolation;
use k2_router_fuzz::targets::lending_ops::AmountHint;
use k2_router_fuzz::targets::liquidation::verify_liquidation_result;
use k2_router_fuzz::targets::liquidation::LiquidationSnapshot;
use k2_router_fuzz::targets::multi_asset::check_reserve_isolation;
use k2_router_fuzz::targets::multi_asset::initial_price;
use k2_router_fuzz::targets::multi_asset::AssetChoice;
use k2_router_fuzz::targets::multi_asset::MultiReserveSnapshot;
use k2_router_fuzz::targets::multi_asset::ReserveConfig;
use k2_router_fuzz::targets::multi_asset::ReserveSnapshot;
use k2_router_fuzz::targets::price_scenarios::apply_price_movement;
use k2_router_fuzz::targets::price_scenarios::clamp_price;
use k2_router_fuzz::targets::price_scenarios::PriceHistory;
use k2_router_fuzz::targets::price_scenarios::PriceMovement;
use k2_router_fuzz::targets::views::MockReflector;
use k2_router_fuzz::targets::views::PriceData;

const RAY: u128 = 1_000_000_000;
const WAD: u128 = 1_000_000_000_000_000_000;

#[test]
fn mock_receivers_plan_their_calls() {
    assert!(MockFlashLoanReceiver.execute_operation());
    let p = ReentrantFlashLoanReceiver.plan(1000);
    assert_eq!((p.borrow, p.nested_flash_loan, p.withdraw), (500, 250, 250));
    assert!(ReentrantFlashLoanReceiver.outcome_ok(false, false));
    assert!(!ReentrantFlashLoanReceiver.outcome_ok(false, true));
    let q = ReentrantRepayLiquidationReceiver.plan(1000, 9, 100);
    assert_eq!((q.repay, q.liquidation, q.deadline, q.approval), (500, 250, 400, 1009));
    assert!(!ReentrantRepayLiquidationReceiver.outcome_ok(true));
    assert_eq!(NonRepayingFlashLoanReceiver.drain_amount(77), Some(77));
    assert_eq!(NonRepayingFlashLoanReceiver.drain_amount(0), None);
    let m = StateManipulatingReceiver.plan(1000, 9);
    assert_eq!((m.supply, m.borrow, m.withdraw, m.approval), (1000, 500, 1000, 1009));
    assert!(StateManipulatingReceiver.outcome_ok(false));
    let e = OracleManipulatingReceiver.plan(1000, 9);
    assert_eq!(e.excessive_borrow, 10_000);
    assert_eq!(e.self_liquidation, 500);
    assert_eq!(e.over_withdraw, 2000);
    assert!(OracleManipulatingReceiver.excessive_borrow_ok(WAD, 5));
    assert!(OracleManipulatingReceiver.excessive_borrow_ok(0, 0));
    assert!(!OracleManipulatingReceiver.excessive_borrow_ok(WAD - 1, 5));
    assert!(!OracleManipulatingReceiver.outcome_ok(false, true));
}

#[test]
fn mock_oracle_feed() {
    assert_eq!(MockReflector::decimals(), 14);
    let p: Option<PriceData> = MockReflector::lastprice(55);
    let p = p.unwrap();
    assert_eq!(p.price, 1_000_000_000_000_000);
    assert_eq!(p.timestamp, 55);
}

#[test]
fn lending_amount_hints() {
    assert_eq!(process_amount(500, AmountHint::Raw, 1000), 500);
    assert_eq!(process_amount(5000, AmountHint::Raw, 1000), 1000);
    assert_eq!(process_amount(0, AmountHint::Raw, 1000), 1);
    assert_eq!(process_amount(5, AmountHint::Raw, 0), 0);
    assert_eq!(process_amount(0, AmountHint::Max, 1000), 1000);
    assert_eq!(process_amount(0, AmountHint::Min, 1000), 1);
    assert_eq!(process_amount(70, AmountHint::PowerOfTwo, 1 << 20), 64);
    assert_eq!(process_amount(1000, AmountHint::LtvBoundary, 10_000), 800);
}

fn accounting(li: u128, bi: u128, a1: u128, supply: u128) -> AccountingSnapshot {
    AccountingSnapshot {
        atoken_total_supply: supply,
        atoken_underlying_balance: 1000,
        debt_total_supply: 0,
        user1_atoken_balance: a1,
        user2_atoken_balance: 0,
        user1_debt_balance: 0,
        user2_debt_balance: 0,
        user1_underlying_balance: 0,
        user2_underlying_balance: 0,
        liquidity_index: li,
        variable_borrow_index: bi,
        treasury_balance: 0,
        timestamp: 0,
    }
}

#[test]
fn accounting_tracker_reports_violations() {
    let mut t = AccountingTracker::new();
    assert_eq!(t.update(accounting(RAY, RAY, 10, 10), 0), None);
    assert_eq!(t.update(accounting(RAY - 1, RAY, 10, 10), 0), Some(AccountingViolation::LiquidityIndexDecreased));
    assert_eq!(t.update(accounting(RAY, RAY - 1, 10, 10), 0), Some(AccountingViolation::BorrowIndexDecreased));
    assert_eq!(t.index_violations, 2);
    assert!(!t.assert_no_violations());
    assert_eq!(t.update(accounting(RAY, RAY, 12, 10), 0), Some(AccountingViolation::ATokenSumExceedsSupply));
    assert_eq!(t.update(accounting(RAY, RAY, 11, 10), 5), None);
    assert_eq!(t.conservation_violations, 1);
}

#[test]
fn receiver_behaviours() {
    assert_eq!(ReceiverBehavior::Underpay.to_u32(), 2);
    assert!(ReceiverBehavior::Overpay.should_succeed());
    assert!(!ReceiverBehavior::Panic.should_succeed());
    let amounts = vec![10_000u128, 500];
    let premiums = vec![9u128, 1];
    assert_eq!(
        ConfigurableReceiver::plan_repayment(Some(42), 0, &amounts, &premiums, 0),
        ReceiverAction::Repay(42, vec![10_009, 501])
    );
    assert_eq!(
        ConfigurableReceiver::plan_repayment(Some(42), 1, &amounts, &premiums, 100),
        ReceiverAction::Repay(42, vec![10_109, 506])
    );
    assert_eq!(
        ConfigurableReceiver::plan_repayment(Some(42), 2, &amounts, &premiums, 0),
        ReceiverAction::Repay(42, vec![9999, 499])
    );
    assert_eq!(ConfigurableReceiver::plan_repayment(Some(42), 3, &amounts, &premiums, 0), ReceiverAction::KeepFunds);
    assert_eq!(ConfigurableReceiver::plan_repayment(Some(42), 4, &amounts, &premiums, 0), ReceiverAction::Abort);
    assert_eq!(ConfigurableReceiver::plan_repayment(Some(42), 5, &amounts, &premiums, 0), ReceiverAction::ReportFailure);
    assert_eq!(ConfigurableReceiver::plan_repayment(None, 0, &amounts, &premiums, 0), ReceiverAction::ReportFailure);
    assert_eq!(ConfigurableReceiver::plan_repayment(None, 3, &amounts, &premiums, 0), ReceiverAction::ReportFailure);
    assert_eq!(receiver_funding(ReceiverBehavior::ExactRepay, 10_000, 9, 0), Some(11_009));
    assert_eq!(receiver_funding(ReceiverBehavior::Overpay, 10_000, 9, -5), Some(10_009 + 1000 + 1000));
    assert_eq!(receiver_funding(ReceiverBehavior::NoRepay, 10_000, 9, 0), None);
}

#[test]
fn price_movements() {
    let base: u128 = 1_000_000_000_000_000;
    assert_eq!(apply_price_movement(base, &PriceMovement::FlashCrash { percent: 200 }), base / 100);
    assert_eq!(apply_price_movement(base, &PriceMovement::Spike { percent: 50 }), base * 3 / 2);
    assert_eq!(apply_price_movement(base, &PriceMovement::Oscillate { amplitude_percent: 10 }), base * 11 / 10);
    assert_eq!(apply_price_movement(base + 1, &PriceMovement::Oscillate { amplitude_percent: 10 }), (base + 1) * 9 / 10);
    assert_eq!(apply_price_movement(7, &PriceMovement::ExtremeLow), 1_000_000);
    assert_eq!(apply_price_movement(7, &PriceMovement::Absolute { price_bps: 0 }), base / 10_000);
    assert_eq!(clamp_price(5), 1_000_000);
    assert_eq!(clamp_price(u128::MAX), 1_000_000_000_000_000_000_000);
    let mut h = PriceHistory::new();
    assert_eq!(h.volatility(), 0);
    h.record(100, 1);
    h.record(130, 2);
    h.record(90, 3);
    h.record(95, 4);
    assert_eq!(h.volatility(), 40);
    assert_eq!(h.timestamps, vec![1, 2, 3, 4]);
}

fn reserve(li: u128) -> ReserveSnapshot {
    ReserveSnapshot {
        liquidity_index: li,
        variable_borrow_index: RAY,
        current_liquidity_rate: 0,
        current_variable_borrow_rate: 0,
        atoken_supply: 0,
        debt_supply: 0,
        underlying_balance: 0,
    }
}

#[test]
fn multi_asset_rules() {
    assert_eq!(initial_price(10), 100_000_000_000_000);
    assert_eq!(initial_price(60_000), 5_000_000_000_000_000);
    assert_eq!(initial_price(20_000), 2_000_000_000_000_000);
    assert_eq!(ReserveConfig::standard().ltv, 7500);
    assert_eq!(ReserveConfig::aggressive().liquidation_threshold, 9000);
    assert_eq!(ReserveConfig::conservative().liquidation_bonus, 1000);
    let before = MultiReserveSnapshot { reserve_a: reserve(RAY + 5), reserve_b: reserve(RAY), reserve_c: reserve(RAY) };
    let after = MultiReserveSnapshot { reserve_a: reserve(RAY), reserve_b: reserve(RAY), reserve_c: reserve(RAY + 1) };
    assert!(check_reserve_isolation(&before, &after, AssetChoice::AssetA));
    assert!(!check_reserve_isolation(&before, &after, AssetChoice::AssetC));
}

fn economic(supply: i128, debt: i128, underlying: i128) -> EconomicSnapshot {
    EconomicSnapshot {
        liquidity_index: RAY,
        variable_borrow_index: RAY,
        current_liquidity_rate: 1,
        current_variable_borrow_rate: 2,
        total_atoken_supply: supply,
        total_debt_supply: debt,
        underlying_balance: underlying,
        treasury_balance: 0,
        timestamp: 0,
    }
}

#[test]
fn economic_rates() {
    assert_eq!(economic(1000, 250, 750).utilization_rate(), RAY / 4);
    assert_eq!(economic(0, 250, 750).utilization_rate(), 0);
    assert!(check_rate_invariants(&economic(1, 1, 1)));
    let mut bad = economic(1, 1, 1);
    bad.current_liquidity_rate = 3;
    assert!(!check_rate_invariants(&bad));
    let mut h = RateHistory::new();
    h.record(RAY / 4, 1, 10);
    h.record(RAY / 2, 2, 20);
    assert_eq!(h.entries, vec![(RAY / 4, 1, 10), (RAY / 2, 2, 20)]);
    assert!(check_rate_utilization_relationship(&h));
    let mut falling = RateHistory::new();
    falling.record(RAY / 2, 2, 0);
    falling.record(RAY / 4, 1, 10_000_000);
    assert!(!check_rate_utilization_relationship(&falling));
    assert!(!falling.check_monotonicity());
}

fn liq(debt: u128, collateral: u128, liquidator: u128) -> LiquidationSnapshot {
    LiquidationSnapshot {
        borrower_collateral: collateral,
        borrower_debt: debt,
        liquidator_collateral: liquidator,
        liquidator_underlying: 0,
        health_factor: WAD / 2,
        liquidity_index: RAY,
        borrow_index: RAY,
        atoken_supply: 0,
        debt_supply: 0,
        atoken_underlying: 0,
    }
}

#[test]
fn liquidation_results() {
    let before = liq(1000, 2000, 0);
    let mut after = liq(500, 1400, 600);
    after.health_factor = WAD;
    assert!(verify_liquidation_result(&before, &after, true, 500));
    let mut too_much = liq(400, 1400, 600);
    too_much.health_factor = WAD;
    assert!(!verify_liquidation_result(&before, &too_much, true, 600));
    assert!(verify_liquidation_result(&before, &before, false, 500));
    assert!(!verify_liquidation_result(&before, &after, false, 500));
}
