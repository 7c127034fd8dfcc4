use k2_router_fuzz::common::conservation::column_total;
use k2_router_fuzz::common::conservation::verify_protocol_invariants;
use k2_router_fuzz::common::conservation::verify_protocol_solvency;
use k2_router_fuzz::common::constants::RAY;
use k2_router_fuzz::common::constants::TOKEN_UNIT;
use k2_router_fuzz::common::economics::verify_no_value_extraction;
use k2_router_fuzz::common::snapshot::AccountReading;
use k2_router_fuzz::common::snapshot::AssetReading;
use k2_router_fuzz::common::snapshot::ProtocolSnapshot;
use k2_router_fuzz::common::snapshot::ReserveReading;
use k2_router_fuzz::common::snapshot::UserReading;

fn asset(supply: i128, debt: i128, pool: i128, treasury: i128) -> AssetReading {
    AssetReading {
        a_token_supply: supply,
        debt_supply: debt,
        pool_balance: pool,
        treasury_balance: treasury,
        price: TOKEN_UNIT,
        indices: Some((RAY, RAY)),
    }
}

fn user(collateral: i128, debt: i128, underlying: i128) -> UserReading {
    UserReading { collateral: vec![collateral], debt: vec![debt], underlying: vec![underlying], health_factor: None }
}

fn snap(a: AssetReading, u: UserReading, timestamp: u64) -> ProtocolSnapshot {
    ProtocolSnapshot::capture(&vec![a], &vec![u], timestamp)
}

fn reserve(supply_cap: u128) -> ReserveReading {
    ReserveReading {
        liquidity_index: RAY,
        variable_borrow_index: RAY,
        current_liquidity_rate: 0,
        current_variable_borrow_rate: 0,
        ltv: 7500,
        liquidation_threshold: 8000,
        liquidation_bonus: 500,
        reserve_factor: 1000,
        supply_cap,
        borrow_cap: 0,
    }
}

#[test]
fn column_totals() {
    let t = vec![vec![1, 2], vec![3, 4], vec![-5, 6]];
    assert_eq!(column_total(&t, 0), -1);
    assert_eq!(column_total(&t, 1), 12);
}

#[test]
fn protocol_invariants_conserve_underlying() {
    let initial = vec![1000u128];
    let good = snap(asset(500, 0, 600, 0), user(500, 0, 400), 1);
    assert!(verify_protocol_invariants(&good, &initial, 0, &vec![None], &vec![None]));
    // 50 units of rounding budget at zero operations
    let drift = snap(asset(500, 0, 650, 0), user(500, 0, 400), 1);
    assert!(verify_protocol_invariants(&drift, &initial, 0, &vec![None], &vec![None]));
    let created = snap(asset(500, 0, 651, 0), user(500, 0, 400), 1);
    assert!(!verify_protocol_invariants(&created, &initial, 0, &vec![None], &vec![None]));
    assert!(verify_protocol_invariants(&created, &initial, 1, &vec![None], &vec![None]));
}

#[test]
fn protocol_invariants_check_sums_accounts_and_caps() {
    let initial = vec![1000u128];
    let mismatched = snap(asset(600, 0, 600, 0), user(500, 0, 400), 1);
    assert!(!verify_protocol_invariants(&mismatched, &initial, 0, &vec![None], &vec![None]));
    let indebted = snap(asset(500, 100, 600, 0), user(500, 100, 400), 1);
    let zero_hf = AccountReading { health_factor: 0, ltv: 5000, total_collateral_base: 1, total_debt_base: 1 };
    let fine = AccountReading { health_factor: 1, ltv: 5000, total_collateral_base: 1, total_debt_base: 1 };
    assert!(!verify_protocol_invariants(&indebted, &initial, 0, &vec![Some(zero_hf)], &vec![None]));
    assert!(verify_protocol_invariants(&indebted, &initial, 0, &vec![Some(fine)], &vec![None]));
    let big = snap(asset(2 * TOKEN_UNIT as i128, 0, 600, 0), user(2 * TOKEN_UNIT as i128, 0, 400), 1);
    assert!(!verify_protocol_invariants(&big, &initial, 0, &vec![None], &vec![Some(reserve(1))]));
    assert!(verify_protocol_invariants(&big, &initial, 0, &vec![None], &vec![Some(reserve(2))]));
}

#[test]
fn solvency_allows_the_rounding_budget() {
    // At price TOKEN_UNIT a token unit is worth one; the allowance at zero
    // operations is 50 * MAX_PRICE / TOKEN_UNIT = 5e12.
    let prices = vec![TOKEN_UNIT];
    let covered = snap(asset(0, 5_000_000_000_000, 0, 0), user(0, 0, 0), 1);
    assert!(verify_protocol_solvency(&covered, &prices, 0));
    let short = snap(asset(0, 5_000_000_000_001, 0, 0), user(0, 0, 0), 1);
    assert!(!verify_protocol_solvency(&short, &prices, 0));
    assert!(verify_protocol_solvency(&short, &vec![0], 0));
}

#[test]
fn value_extraction_beyond_tolerance() {
    let prices = vec![1u128];
    let before = snap(asset(0, 0, 0, 0), user(0, 0, 1000), 5);
    // tolerance: 1000 / 100 + 10_000_000
    let small_gain = snap(asset(0, 0, 0, 0), user(0, 0, 1000 + 15_000_000), 5);
    let large_gain = snap(asset(0, 0, 0, 0), user(0, 0, 1000 + 30_000_000), 5);
    assert!(verify_no_value_extraction(&before, &small_gain, &prices));
    assert!(!verify_no_value_extraction(&before, &large_gain, &prices));
}
