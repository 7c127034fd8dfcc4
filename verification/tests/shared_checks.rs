use k2_router_fuzz::invariants::assert_flash_loan_repayment;
use k2_router_fuzz::invariants::assert_health_factor_invariants;
use k2_router_fuzz::invariants::assert_interest_rate_invariants;
use k2_router_fuzz::invariants::assert_liquidation_bonus_invariants;
use k2_router_fuzz::invariants::assert_supply_conservation;
use k2_router_fuzz::invariants::assert_withdraw_conservation;
use k2_router_fuzz::invariants::requires_admin_auth;
use k2_router_fuzz::invariants::requires_emergency_admin_auth;
use k2_router_fuzz::invariants::str_eq;
use k2_router_fuzz::invariants::AccountingSnapshot;
use k2_router_fuzz::invariants::AdminTransferState;
use k2_router_fuzz::invariants::AuthInvariantTracker;
use k2_router_fuzz::invariants::RAY;
use k2_router_fuzz::invariants::WAD;

#[test]
fn test_auth_tracker() {
    let mut tracker = AuthInvariantTracker::new();
    tracker.record_rejection();
    tracker.record_rejection();
    assert_eq!(tracker.authorized_rejections, 2);
    assert_eq!(tracker.unauthorized_successes, 0);
    assert!(tracker.assert_no_bypasses());
}

#[test]
#[should_panic(expected = "AUTHORIZATION BYPASS")]
fn test_auth_tracker_bypass() {
    let mut tracker = AuthInvariantTracker::new();
    tracker.record_bypass("test_op");
    if !tracker.assert_no_bypasses() {
        panic!(
            "AUTHORIZATION BYPASS: {} unauthorized operations succeeded: {:?}",
            tracker.unauthorized_successes, tracker.bypass_operations
        );
    }
}

#[test]
fn test_accounting_snapshot_basic() {
    let snapshot = AccountingSnapshot {
        atoken_supply: 1000,
        atoken_underlying_balance: 1000,
        debt_supply: 500,
        treasury_balance: 10,
        liquidity_index: RAY,
        variable_borrow_index: RAY,
        timestamp: 1000,
    };
    assert!(snapshot.assert_basic_invariants());
}

#[test]
fn accounting_snapshot_rejects_index_below_ray() {
    let snapshot = AccountingSnapshot {
        atoken_supply: 1000,
        atoken_underlying_balance: 1000,
        debt_supply: 500,
        treasury_balance: 10,
        liquidity_index: RAY - 1,
        variable_borrow_index: RAY,
        timestamp: 1000,
    };
    assert!(!snapshot.assert_basic_invariants());
}

#[test]
fn monotonic_indices_detects_decrease() {
    let earlier = AccountingSnapshot {
        atoken_supply: 0,
        atoken_underlying_balance: 0,
        debt_supply: 0,
        treasury_balance: 0,
        liquidity_index: RAY + 5,
        variable_borrow_index: RAY + 7,
        timestamp: 1,
    };
    let mut later = earlier;
    later.liquidity_index = RAY + 6;
    assert!(later.assert_monotonic_indices(&earlier));
    later.variable_borrow_index = RAY + 6;
    assert!(!later.assert_monotonic_indices(&earlier));
}

#[test]
fn bypass_is_recorded_by_name() {
    let mut tracker = AuthInvariantTracker::new();
    tracker.record_bypass("set_treasury");
    assert_eq!(tracker.unauthorized_successes, 1);
    assert_eq!(tracker.authorized_rejections, 0);
    assert_eq!(tracker.bypass_operations, vec!["set_treasury".to_string()]);
    assert!(!tracker.assert_no_bypasses());
}

#[test]
fn admin_auth_classification() {
    assert!(requires_admin_auth("set_flash_loan_premium"));
    assert!(requires_admin_auth("cancel_admin_proposal"));
    assert!(requires_admin_auth("unpause"));
    assert!(!requires_admin_auth("pause"));
    assert!(!requires_admin_auth("supply"));
    assert!(requires_emergency_admin_auth("pause"));
    assert!(!requires_emergency_admin_auth("unpause"));
    assert!(str_eq("abc", "abc"));
    assert!(!str_eq("abc", "abd"));
}

#[test]
fn supply_conservation_within_one_unit() {
    // 1000 * RAY / (2 * RAY) = 500
    assert!(assert_supply_conservation(1000, 500, 2 * RAY));
    assert!(assert_supply_conservation(1000, 501, 2 * RAY));
    assert!(assert_supply_conservation(1000, 499, 2 * RAY));
    assert!(!assert_supply_conservation(1000, 502, 2 * RAY));
}

#[test]
fn withdraw_conservation_within_one_unit() {
    // 500 * 2 RAY / RAY = 1000
    assert!(assert_withdraw_conservation(500, 1000, 2 * RAY));
    assert!(assert_withdraw_conservation(500, 1001, 2 * RAY));
    assert!(!assert_withdraw_conservation(500, 998, 2 * RAY));
}

#[test]
fn health_factor_rule() {
    assert!(assert_health_factor_invariants(WAD - 1, true, true));
    assert!(!assert_health_factor_invariants(WAD, true, true));
    assert!(assert_health_factor_invariants(0, false, false));
}

#[test]
fn interest_rate_rule() {
    // borrow 1000 with 10% reserve factor: max supply rate 900 (+1)
    assert!(assert_interest_rate_invariants(901, 1000, 1000));
    assert!(!assert_interest_rate_invariants(902, 1000, 1000));
    assert!(assert_interest_rate_invariants(u128::MAX, 0, 0));
}

#[test]
fn liquidation_bonus_rule() {
    // debt value 100 * 2 = 200, bonus 5% => 210, plus one collateral price unit (1)
    assert!(assert_liquidation_bonus_invariants(500, 211, 100, 1, 2));
    assert!(!assert_liquidation_bonus_invariants(500, 212, 100, 1, 2));
    assert!(assert_liquidation_bonus_invariants(500, 1_000_000, 0, 1, 2));
}

#[test]
fn flash_loan_repayment_rule() {
    // 10000 at 30 bps => 10030
    assert!(assert_flash_loan_repayment(10_000, 30, 10_030, true));
    assert!(!assert_flash_loan_repayment(10_000, 30, 10_029, true));
    assert!(assert_flash_loan_repayment(10_000, 30, 0, false));
}

#[test]
fn two_step_admin_transfer_rule() {
    let state = AdminTransferState::new("admin");
    assert_eq!(state.current_admin, Some("admin".to_string()));
    assert_eq!(state.proposed_admin, None);
    assert!(state.assert_two_step_invariants(Some("new"), "propose_admin", true));
    assert!(!state.assert_two_step_invariants(None, "propose_admin", true));
    assert!(!state.assert_two_step_invariants(None, "accept_admin", true));
    assert!(state.assert_two_step_invariants(None, "accept_admin", false));
    let mut proposed = state.clone();
    proposed.proposed_admin = Some("new".to_string());
    assert!(proposed.assert_two_step_invariants(None, "accept_admin", true));
    assert!(state.assert_two_step_invariants(None, "other", true));
}
