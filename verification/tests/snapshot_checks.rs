use k2_router_fuzz::common::constants::RAY;
use k2_router_fuzz::common::constants::WAD;
use k2_router_fuzz::common::invariants::has_positive;
use k2_router_fuzz::common::invariants::verify_access_control_invariants;
use k2_router_fuzz::common::invariants::verify_cumulative_rounding;
use k2_router_fuzz::common::invariants::verify_debt_ceiling_invariants;
use k2_router_fuzz::common::invariants::verify_failed_operation_unchanged;
use k2_router_fuzz::common::invariants::verify_flash_loan_premium;
use k2_router_fuzz::common::invariants::verify_flash_loan_repayment;
use k2_router_fuzz::common::invariants::verify_index_monotonicity;
use k2_router_fuzz::common::invariants::verify_interest_invariants;
use k2_router_fuzz::common::invariants::verify_liquidation_bonus_invariants;
use k2_router_fuzz::common::invariants::verify_liquidation_invariants;
use k2_router_fuzz::common::invariants::verify_no_dust_accumulation;
use k2_router_fuzz::common::invariants::verify_operation_invariants;
use k2_router_fuzz::common::invariants::verify_oracle_sanity;
use k2_router_fuzz::common::invariants::verify_parameter_bounds;
use k2_router_fuzz::common::invariants::verify_pause_state_invariant;
use k2_router_fuzz::common::invariants::verify_utilization_invariants;
use k2_router_fuzz::common::operations::Operation;
use k2_router_fuzz::common::snapshot::AccountReading;
use k2_router_fuzz::common::snapshot::AssetReading;
use k2_router_fuzz::common::snapshot::ProtocolSnapshot;
use k2_router_fuzz::common::snapshot::ReserveReading;
use k2_router_fuzz::common::snapshot::UserReading;

fn asset(supply: i128, debt: i128, pool: i128, treasury: i128) -> AssetReading {
    AssetReading {
        a_token_supply: supply,
        debt_supply: debt,
        pool_balance: pool,
        treasury_balance: treasury,
        price: 1_000_000_000_000,
        indices: Some((RAY, RAY)),
    }
}

fn user(collateral: i128, debt: i128, underlying: i128) -> UserReading {
    UserReading {
        collateral: vec![collateral],
        debt: vec![debt],
        underlying: vec![underlying],
        health_factor: None,
    }
}

fn snap(a: AssetReading, u: UserReading, timestamp: u64) -> ProtocolSnapshot {
    ProtocolSnapshot::capture(&vec![a], &vec![u], timestamp)
}

fn reserve() -> ReserveReading {
    ReserveReading {
        liquidity_index: RAY,
        variable_borrow_index: RAY,
        current_liquidity_rate: 10,
        current_variable_borrow_rate: 20,
        ltv: 7500,
        liquidation_threshold: 8000,
        liquidation_bonus: 500,
        reserve_factor: 1000,
        supply_cap: 0,
        borrow_cap: 0,
    }
}

#[test]
fn capture_reads_assets_and_users() {
    let mut a = asset(1000, 400, 700, 5);
    a.indices = None;
    let s = snap(a, user(100, 20, 50), 42);
    assert_eq!(s.total_supply, vec![1000]);
    assert_eq!(s.total_debt, vec![400]);
    assert_eq!(s.available_liquidity, vec![700]);
    // reserves: pool - (supply - debt) = 700 - 600
    assert_eq!(s.protocol_reserves, vec![100]);
    assert_eq!(s.liquidity_indices, vec![RAY]);
    assert_eq!(s.health_factors, vec![u128::MAX]);
    assert_eq!(s.timestamp, 42);
}

#[test]
fn supply_check_requires_collateral_growth() {
    let before = snap(asset(1000, 0, 1000, 0), user(100, 0, 500), 1);
    let grew = snap(asset(1100, 0, 1100, 0), user(200, 0, 400), 1);
    let shrank = snap(asset(1100, 0, 1100, 0), user(50, 0, 400), 1);
    let prices = vec![1u128];
    let op = Operation::Supply { user_idx: 3, asset_idx: 7, amount_percent: 10 };
    assert!(verify_operation_invariants(&op, &before, &grew, true, None, &prices));
    assert!(!verify_operation_invariants(&op, &before, &shrank, true, None, &prices));
    // A failed supply is not checked.
    assert!(verify_operation_invariants(&op, &before, &shrank, false, None, &prices));
}

#[test]
fn borrow_check_requires_healthy_account() {
    let before = snap(asset(1000, 0, 1000, 0), user(500, 0, 0), 1);
    let after = snap(asset(1000, 100, 900, 0), user(500, 100, 100), 1);
    let prices = vec![1u128];
    let op = Operation::Borrow { user_idx: 0, asset_idx: 0, amount_percent: 10 };
    assert!(verify_operation_invariants(&op, &before, &after, true, Some(WAD), &prices));
    assert!(!verify_operation_invariants(&op, &before, &after, true, Some(WAD - 1), &prices));
}

#[test]
fn time_and_price_checks() {
    let before = snap(asset(0, 0, 0, 0), user(0, 0, 0), 10);
    let later = snap(asset(0, 0, 0, 0), user(0, 0, 0), 11);
    let prices_zero = vec![0u128];
    let prices_one = vec![1u128];
    let warp = Operation::TimeWarp { seconds: 1 };
    assert!(verify_operation_invariants(&warp, &before, &later, true, None, &prices_one));
    assert!(!verify_operation_invariants(&warp, &later, &before, true, None, &prices_one));
    let zero = Operation::PriceToZero { asset_idx: 0 };
    assert!(verify_operation_invariants(&zero, &before, &later, true, None, &prices_zero));
    assert!(!verify_operation_invariants(&zero, &before, &later, true, None, &prices_one));
}

#[test]
fn failed_operation_leaves_supplies() {
    let before = snap(asset(1000, 10, 990, 0), user(0, 0, 0), 1);
    let same = snap(asset(1000, 10, 980, 0), user(0, 0, 0), 1);
    let moved = snap(asset(1001, 10, 990, 0), user(0, 0, 0), 1);
    assert!(verify_failed_operation_unchanged(&before, &same));
    assert!(!verify_failed_operation_unchanged(&before, &moved));
}

#[test]
fn index_monotonicity() {
    let mut a = asset(0, 0, 0, 0);
    let before = snap(a, user(0, 0, 0), 5);
    a.indices = Some((RAY + 1, RAY));
    let after = snap(a, user(0, 0, 0), 5);
    assert!(verify_index_monotonicity(&before, &after));
    assert!(!verify_index_monotonicity(&after, &before));
}

#[test]
fn flash_loan_premium_and_repayment() {
    let before = snap(asset(0, 0, 1_000_000, 0), user(0, 0, 0), 1);
    // premium on 1_000_000 at 9 bps = 900; accepted band 855..=1045
    let paid = snap(asset(0, 0, 1_000_900, 900), user(0, 0, 0), 1);
    let unpaid = snap(asset(0, 0, 1_000_000, 100), user(0, 0, 0), 1);
    assert!(verify_flash_loan_premium(&before, &paid, 0, 1_000_000, true));
    assert!(!verify_flash_loan_premium(&before, &unpaid, 0, 1_000_000, true));
    assert!(verify_flash_loan_premium(&before, &unpaid, 0, 1_000_000, false));
    assert!(verify_flash_loan_repayment(&before, &paid, 0, true));
    let drained = snap(asset(0, 0, 999_999, 0), user(0, 0, 0), 1);
    assert!(!verify_flash_loan_repayment(&before, &drained, 0, true));
}

#[test]
fn cumulative_rounding_limit() {
    // limit is max(5000, ops * 10)
    assert!(verify_cumulative_rounding(&vec![5000, 0], 1));
    assert!(!verify_cumulative_rounding(&vec![5001], 1));
    assert!(verify_cumulative_rounding(&vec![6000], 600));
}

#[test]
fn reserve_parameter_checks() {
    let good = reserve();
    let mut bad_rates = good;
    bad_rates.current_liquidity_rate = 30;
    assert!(verify_interest_invariants(&vec![Some(good), None]));
    assert!(!verify_interest_invariants(&vec![Some(bad_rates)]));
    let mut bad_ltv = good;
    bad_ltv.ltv = 9000;
    assert!(verify_liquidation_bonus_invariants(&vec![Some(good)]));
    assert!(!verify_liquidation_bonus_invariants(&vec![Some(bad_ltv)]));
    assert!(verify_parameter_bounds(&vec![Some(good)]));
    let mut full_threshold = good;
    full_threshold.liquidation_threshold = 10000;
    assert!(!verify_parameter_bounds(&vec![Some(full_threshold)]));
}

#[test]
fn utilization_dust_and_ceiling() {
    let s = snap(asset(1000, 500, 500, 0), user(0, 0, 0), 1);
    assert!(verify_utilization_invariants(&s));
    assert!(verify_no_dust_accumulation(&s));
    // pool exceeds supply plus reserves by 5000: dust limit is 5000, so it fails
    let mut dusty = snap(asset(1000, 0, 6000, 0), user(0, 0, 0), 1);
    dusty.protocol_reserves = vec![0];
    assert!(!verify_no_dust_accumulation(&dusty));
    // ceiling 1 => 1 * TOKEN_UNIT + TOKEN_UNIT = 20_000_000
    let indebted = snap(asset(0, 20_000_001, 0, 0), user(0, 0, 0), 1);
    assert!(!verify_debt_ceiling_invariants(&indebted, &vec![Some(1)]));
    assert!(verify_debt_ceiling_invariants(&indebted, &vec![Some(0)]));
    assert!(verify_debt_ceiling_invariants(&s, &vec![Some(1)]));
}

#[test]
fn access_lists_must_be_disjoint() {
    let wl = vec![vec![1u64, 2]];
    let bl = vec![vec![3u64]];
    assert!(verify_access_control_invariants(&wl, &bl, &vec![7], &vec![8]));
    assert!(!verify_access_control_invariants(&wl, &vec![vec![2u64]], &vec![], &vec![]));
    assert!(!verify_access_control_invariants(&vec![], &vec![], &vec![9], &vec![9]));
}

#[test]
fn liquidatable_account_has_debt() {
    let s = snap(asset(0, 0, 0, 0), user(10, 10, 0), 1);
    let broken = AccountReading { health_factor: 1, ltv: 0, total_collateral_base: 1, total_debt_base: 0 };
    let fine = AccountReading { health_factor: 1, ltv: 0, total_collateral_base: 1, total_debt_base: 5 };
    assert!(!verify_liquidation_invariants(&s, &vec![Some(broken)], WAD));
    assert!(verify_liquidation_invariants(&s, &vec![Some(fine)], WAD));
    assert!(verify_liquidation_invariants(&s, &vec![None], WAD));
}

#[test]
fn oracle_sanity_always_passes() {
    let before = snap(asset(0, 0, 0, 0), user(0, 0, 0), 1);
    let mut a = asset(0, 0, 0, 0);
    a.price = 1;
    let after = snap(a, user(0, 0, 0), 2);
    assert!(verify_oracle_sanity(&before, &after));
}

#[test]
fn positive_entries() {
    assert!(has_positive(&vec![0, -1, 3]));
    assert!(!has_positive(&vec![0, -1]));
    assert!(!has_positive(&vec![]));
}

#[test]
fn pause_state_reads_agree() {
    assert!(verify_pause_state_invariant(true, true));
    assert!(!verify_pause_state_invariant(true, false));
    assert!(verify_pause_state_invariant(false, false));
}
