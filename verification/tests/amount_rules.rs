use k2_router_fuzz::common::constants::calculate_rounding_tolerance;
use k2_router_fuzz::common::constants::calculate_tolerance;
use k2_router_fuzz::common::constants::MAX_PRICE;
use k2_router_fuzz::common::constants::MIN_PRICE;
use k2_router_fuzz::common::constants::RAY;
use k2_router_fuzz::common::constants::TOKEN_UNIT;
use k2_router_fuzz::common::executor::capped_percent_amount;
use k2_router_fuzz::common::executor::changed_price;
use k2_router_fuzz::common::executor::deposit_shares_ok;
use k2_router_fuzz::common::executor::donation_outcome_ok;
use k2_router_fuzz::common::executor::donation_test_user;
use k2_router_fuzz::common::executor::dust_amount;
use k2_router_fuzz::common::executor::dust_withdraw_amount;
use k2_router_fuzz::common::executor::edit_address_list;
use k2_router_fuzz::common::executor::extreme_warp_indices_ok;
use k2_router_fuzz::common::executor::extreme_warp_seconds;
use k2_router_fuzz::common::executor::first_depositor_attack_ok;
use k2_router_fuzz::common::executor::liquidation_cover;
use k2_router_fuzz::common::executor::percent_amount;
use k2_router_fuzz::common::executor::quarter_cover;
use k2_router_fuzz::common::executor::rapid_borrow_amount;
use k2_router_fuzz::common::executor::rapid_borrow_repay_ok;
use k2_router_fuzz::common::executor::rapid_cycle_amount;
use k2_router_fuzz::common::executor::rapid_supply_withdraw_ok;
use k2_router_fuzz::common::executor::repay_all_amount;
use k2_router_fuzz::common::executor::repay_amount;
use k2_router_fuzz::common::executor::volatility_prices;
use k2_router_fuzz::common::ledger::checked_flash_loan_amount;
use k2_router_fuzz::common::ledger::pick_index;
use k2_router_fuzz::common::ledger::value_checks_due;
use k2_router_fuzz::common::ledger::RunLedger;

#[test]
fn percent_amounts() {
    assert_eq!(percent_amount(1000, 10), Some(100));
    assert_eq!(percent_amount(5, 10), Some(1));
    assert_eq!(percent_amount(0, 10), None);
    assert_eq!(percent_amount(-4, 10), None);
    assert_eq!(capped_percent_amount(1000, 50), Some(500));
    assert_eq!(capped_percent_amount(1_000_000_000, 100), None);
}

#[test]
fn repay_amounts() {
    assert_eq!(repay_amount(1000, 300, 50), Some(300));
    assert_eq!(repay_amount(1000, 3000, 50), Some(500));
    assert_eq!(repay_amount(0, 300, 50), None);
    assert_eq!(repay_amount(10, 0, 50), None);
    assert_eq!(repay_all_amount(100, 50), Some(50));
    assert_eq!(repay_all_amount(40, 50), Some(40));
    assert_eq!(repay_all_amount(40, 0), None);
}

#[test]
fn liquidation_covers_stay_within_close_factor() {
    assert_eq!(liquidation_cover(1000, 1, 80), Some(500));
    assert_eq!(liquidation_cover(1000, 1, 20), Some(200));
    assert_eq!(liquidation_cover(1000, 0, 80), None);
    assert_eq!(quarter_cover(1000), 250);
    assert_eq!(quarter_cover(2), 1);
}

#[test]
fn time_warps() {
    assert_eq!(extreme_warp_seconds(3), 94_608_000);
    assert_eq!(extreme_warp_seconds(200), 315_360_000);
    let before = vec![(RAY, RAY + 5)];
    assert!(extreme_warp_indices_ok(&before, 0, RAY, RAY + 5));
    assert!(!extreme_warp_indices_ok(&before, 0, RAY, RAY + 4));
    assert!(!extreme_warp_indices_ok(&before, 0, RAY - 1, RAY + 5));
    assert!(!extreme_warp_indices_ok(&before, 3, RAY * 10_001, RAY));
    assert!(extreme_warp_indices_ok(&before, 3, RAY * 10_000, RAY));
}

#[test]
fn price_moves() {
    assert_eq!(changed_price(1_000_000_000_000, 500), Some(1_050_000_000_000));
    assert_eq!(changed_price(MIN_PRICE, -5000), Some(MIN_PRICE));
    assert_eq!(changed_price(MAX_PRICE, 100), Some(MAX_PRICE));
    assert_eq!(changed_price(0, 100), None);
    assert_eq!(
        volatility_prices(1_000_000_000_000, 3),
        Some(vec![1_200_000_000_000, 800_000_000_000, 1_200_000_000_000])
    );
    assert_eq!(volatility_prices(1_000_000_000_000, 20).map(|v| v.len()), Some(10));
    assert_eq!(volatility_prices(0, 3), None);
}

#[test]
fn dust_and_rapid_amounts() {
    assert_eq!(dust_amount(200), 50);
    assert_eq!(dust_amount(7), 7);
    assert_eq!(dust_withdraw_amount(30, 10), Some(10));
    assert_eq!(dust_withdraw_amount(30, 0), None);
    assert_eq!(rapid_cycle_amount(100), Some(10));
    assert_eq!(rapid_cycle_amount(5), None);
    assert_eq!(rapid_borrow_amount(100), Some(5));
    assert_eq!(rapid_borrow_amount(19), None);
}

#[test]
fn attack_outcomes() {
    assert!(rapid_supply_withdraw_ok(1_000_000, 900_000, 101_000));
    assert!(!rapid_supply_withdraw_ok(1_000_000, 900_000, 101_001));
    assert!(rapid_borrow_repay_ok(1_000_000, 990_000));
    assert!(!rapid_borrow_repay_ok(1_000_000, 989_999));
    // max profit is max(initial / 100, 1000)
    assert!(first_depositor_attack_ok(100_000, 100_500, 500, 0, 0));
    assert!(!first_depositor_attack_ok(100_000, 100_500, 501, 0, 0));
    assert!(!first_depositor_attack_ok(100_000, 100_000, 0, 51, 0));
    assert!(first_depositor_attack_ok(100_000, 100_000, 0, 50, 0));
    assert!(donation_outcome_ok(10, 10, 100, 150, 50));
    assert!(!donation_outcome_ok(10, 11, 100, 150, 50));
    assert!(!donation_outcome_ok(10, 10, 100, 149, 50));
    assert_eq!(donation_test_user(7), 0);
    assert_eq!(donation_test_user(2), 3);
    assert!(!deposit_shares_ok(51, 0));
    assert!(deposit_shares_ok(50, 0));
}

#[test]
fn access_list_edits() {
    let list = vec![1u64, 2, 1];
    assert_eq!(edit_address_list(&list, 1, false), vec![2]);
    assert_eq!(edit_address_list(&list, 3, true), vec![1, 2, 1, 3]);
    assert_eq!(edit_address_list(&list, 2, true), list);
    let added = edit_address_list(&list, 9, true);
    assert_eq!(edit_address_list(&added, 9, true), added);
}

#[test]
fn tolerances() {
    assert_eq!(calculate_tolerance(0), 50);
    assert_eq!(calculate_tolerance(10), 100);
    assert_eq!(calculate_rounding_tolerance(40 * TOKEN_UNIT, 2), 62);
    assert_eq!(calculate_rounding_tolerance(0, 0), 50);
    assert_eq!(calculate_rounding_tolerance(1000 * TOKEN_UNIT, 0), 55);
}

#[test]
fn run_ledger_tracks_rounding() {
    let mut ledger = RunLedger::new(&vec![vec![10, 20], vec![5]]);
    assert_eq!(ledger.initial_total_underlying, vec![30, 5]);
    assert_eq!(ledger.cumulative_rounding_error, vec![0, 0]);
    assert_eq!(ledger.operation_count, 0);
    ledger.track_rounding_error(0, -7);
    ledger.track_rounding_error(0, 3);
    ledger.track_rounding_error(5, 3);
    assert_eq!(ledger.cumulative_rounding_error, vec![10, 0]);
    ledger.increment_operation_count();
    assert_eq!(ledger.operation_count, 1);
    ledger.track_rounding_error(1, i128::MAX);
    ledger.track_rounding_error(1, 1);
    assert_eq!(ledger.cumulative_rounding_error, vec![10, i128::MAX]);
}

#[test]
fn ledger_helpers() {
    assert_eq!(pick_index(10, 4), 2);
    assert_eq!(checked_flash_loan_amount(1000, 10), 100);
    assert_eq!(checked_flash_loan_amount(5, 10), 1);
    assert!(value_checks_due(10));
    assert!(!value_checks_due(11));
}
