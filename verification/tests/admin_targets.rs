use k2_router_fuzz::targets::admin_ops::AdminOperation as AdminOpsOperation;
use k2_router_fuzz::targets::admin_ops::BoundaryHint as AdminOpsHint;
use k2_router_fuzz::targets::admin_ops::check_admin_invariants;
use k2_router_fuzz::targets::admin_ops::initial_premium_max;
use k2_router_fuzz::targets::admin_ops::plan_admin_call;
use k2_router_fuzz::targets::admin_ops::scaled_hf_threshold;
use k2_router_fuzz::targets::admin_ops::AdminCall;
use k2_router_fuzz::targets::admin_ops::AdminState;
use k2_router_fuzz::targets::admin_transfer::check_admin_transfer_invariants;
use k2_router_fuzz::targets::admin_transfer::role_for;
use k2_router_fuzz::targets::admin_transfer::Actor;
use k2_router_fuzz::targets::admin_transfer::AdminType;
use k2_router_fuzz::targets::admin_transfer::Role;
use k2_router_fuzz::targets::admin_transfer::TargetContract;
use k2_router_fuzz::targets::admin_transfer::TransferCall;
use k2_router_fuzz::targets::admin_transfer::TransferOperation;
use k2_router_fuzz::targets::admin_transfer::TransferState;
use k2_router_fuzz::targets::auth_boundaries::AdminOperation as AuthAdminOperation;
use k2_router_fuzz::targets::auth_boundaries::acts_on_target;
use k2_router_fuzz::targets::auth_boundaries::admin_argument;
use k2_router_fuzz::targets::auth_boundaries::advance_seconds;
use k2_router_fuzz::targets::auth_boundaries::is_admin;
use k2_router_fuzz::targets::auth_boundaries::is_emergency_admin;
use k2_router_fuzz::targets::auth_boundaries::user_amount;
use k2_router_fuzz::targets::auth_boundaries::ActorType;
use k2_router_fuzz::targets::auth_boundaries::AuthTracker;
use k2_router_fuzz::targets::auth_boundaries::UserOperation;
use k2_router_fuzz::targets::reserve_config::BoundaryHint as ConfigHint;
use k2_router_fuzz::targets::reserve_config::check_reserve_config_invariants;
use k2_router_fuzz::targets::reserve_config::collateral_config_should_fail;
use k2_router_fuzz::targets::reserve_config::initial_ltv_threshold;
use k2_router_fuzz::targets::reserve_config::operation_should_fail;
use k2_router_fuzz::targets::reserve_config::process_cap_value;
use k2_router_fuzz::targets::reserve_config::reserve_init_params;
use k2_router_fuzz::targets::reserve_config::ConfigOperation;

const WAD: u128 = 1_000_000_000_000_000_000;

#[test]
fn premium_hints_select_values() {
    let raw = plan_admin_call(&AdminOpsOperation::SetFlashLoanPremium { premium_bps: 25, hint: AdminOpsHint::Raw }, 30);
    assert_eq!(raw, AdminCall::SetFlashLoanPremium { premium: 25, must_fail: false });
    let above = plan_admin_call(&AdminOpsOperation::SetFlashLoanPremium { premium_bps: 0, hint: AdminOpsHint::JustAboveMax }, 30);
    assert_eq!(above, AdminCall::SetFlashLoanPremium { premium: 31, must_fail: true });
    let max = plan_admin_call(&AdminOpsOperation::SetFlashLoanPremiumMax { max_premium_bps: 7, hint: AdminOpsHint::MaxValid }, 30);
    assert_eq!(max, AdminCall::SetFlashLoanPremiumMax { max_premium: 100_000 });
    let swap = plan_admin_call(&AdminOpsOperation::SetMinSwapOutputBps { min_output_bps: 0, hint: AdminOpsHint::Max }, 30);
    assert_eq!(swap, AdminCall::SetMinSwapOutputBps { min_output: u128::MAX, must_fail: true });
    let list = plan_admin_call(&AdminOpsOperation::SetReserveWhitelist { whitelist_size: 13 }, 30);
    assert_eq!(list, AdminCall::SetReserveWhitelist { size: 3 });
    let time = plan_admin_call(&AdminOpsOperation::AdvanceTime { seconds: 31_536_005 }, 30);
    assert_eq!(time, AdminCall::AdvanceTime { advance: 5 });
    assert_eq!(scaled_hf_threshold(150), WAD * 3 / 2);
    assert_eq!(initial_premium_max(10), 30);
    assert_eq!(initial_premium_max(45), 45);
}

#[test]
fn admin_state_tracks_pause_and_premium() {
    let mut s = AdminState::new();
    s.record_outcome(&AdminCall::Pause, 10, false);
    assert!(!s.is_paused);
    s.record_outcome(&AdminCall::Pause, 10, true);
    assert!(s.is_paused);
    s.record_outcome(&AdminCall::Unpause, 10, true);
    assert!(!s.is_paused);
    s.record_outcome(&AdminCall::SetFlashLoanPremiumMax { max_premium: 5 }, 10, true);
    assert!(s.premium_invariant_violated);
    s.record_outcome(&AdminCall::SetFlashLoanPremiumMax { max_premium: 50 }, 10, true);
    assert!(s.premium_invariant_violated);
    assert!(check_admin_invariants(10, 30, 10_000, false, false, false));
    assert!(!check_admin_invariants(31, 30, 10_000, false, false, false));
    assert!(check_admin_invariants(31, 30, 10_000, false, false, true));
    assert!(!check_admin_invariants(10, 30, 10_001, false, false, false));
    assert!(!check_admin_invariants(10, 30, 0, true, false, false));
}

fn transfer_state() -> TransferState {
    TransferState::new(1, 2, 9, [10, 11, 12, 13])
}

#[test]
fn two_step_transfer_records() {
    let mut s = transfer_state();
    let propose = TransferOperation::ProposeAdmin {
        target: TargetContract::KineticRouter,
        admin_type: AdminType::PoolAdmin,
        proposer: Actor::CurrentAdmin,
        pending_index: 6,
    };
    let (call, must_fail) = s.plan(&propose);
    assert_eq!(call, TransferCall::Propose { role: Role::RouterPool, caller: 1, pending: 12 });
    assert!(!must_fail);
    assert!(s.record_outcome(&propose, true));
    assert_eq!(s.router_pending_pool_admin, Some(12));
    assert_eq!(s.router_pool_admin, 1);

    let stranger_accepts = TransferOperation::AcceptAdmin {
        target: TargetContract::KineticRouter,
        admin_type: AdminType::PoolAdmin,
        accepter: Actor::OtherUser,
    };
    assert!(s.plan(&stranger_accepts).1);
    assert!(!s.record_outcome(&stranger_accepts, true));

    let accept = TransferOperation::AcceptAdmin {
        target: TargetContract::KineticRouter,
        admin_type: AdminType::PoolAdmin,
        accepter: Actor::PendingAdmin,
    };
    assert_eq!(s.get_actor_address(Actor::PendingAdmin, TargetContract::KineticRouter, AdminType::PoolAdmin), 12);
    assert!(s.record_outcome(&accept, true));
    assert_eq!(s.router_pool_admin, 12);
    assert_eq!(s.router_pending_pool_admin, None);
    assert!(check_admin_transfer_invariants(&s, 12, None, 1, None));
    assert!(!check_admin_transfer_invariants(&s, 1, None, 1, None));
}

#[test]
fn cancel_without_proposal_must_fail() {
    let mut s = transfer_state();
    let cancel = TransferOperation::CancelProposal {
        target: TargetContract::PoolConfigurator,
        admin_type: AdminType::PoolAdmin,
        canceller: Actor::CurrentAdmin,
    };
    assert!(s.plan(&cancel).1);
    assert!(s.record_outcome(&cancel, false));
    assert!(!s.record_outcome(&cancel, true));
    assert_eq!(role_for(TargetContract::PoolConfigurator, AdminType::EmergencyAdmin), Role::Configurator);
    assert_eq!(role_for(TargetContract::KineticRouter, AdminType::EmergencyAdmin), Role::RouterEmergency);
}

#[test]
fn replaced_proposal_is_remembered() {
    let mut s = transfer_state();
    let propose = |i: u8| TransferOperation::ProposeAdmin {
        target: TargetContract::PoolConfigurator,
        admin_type: AdminType::PoolAdmin,
        proposer: Actor::CurrentAdmin,
        pending_index: i,
    };
    assert!(s.record_outcome(&propose(0), true));
    assert!(s.record_outcome(&propose(1), true));
    assert_eq!(s.configurator_pending_admin, Some(11));
    assert_eq!(s.replaced_pending, Some(10));
    let replaced_accepts = TransferOperation::AcceptAdmin {
        target: TargetContract::PoolConfigurator,
        admin_type: AdminType::PoolAdmin,
        accepter: Actor::ReplacedPending,
    };
    assert!(s.plan(&replaced_accepts).1);
}

#[test]
fn auth_arguments_and_amounts() {
    assert_eq!(admin_argument(&AuthAdminOperation::SetFlashLoanPremium { premium_bps: 20_000 }), Some(10_000));
    assert_eq!(admin_argument(&AuthAdminOperation::SetFlashLoanPremiumMax { max_bps: 60_000 }), Some(60_000));
    assert_eq!(admin_argument(&AuthAdminOperation::SetHfLiquidationThreshold { threshold: 120 }), Some(WAD * 6 / 5));
    assert_eq!(admin_argument(&AuthAdminOperation::SetLiquidationBlacklist { size: 9 }), Some(4));
    assert_eq!(admin_argument(&AuthAdminOperation::Pause), None);
    assert_eq!(user_amount(&UserOperation::Supply { amount: 0 }), Some(1));
    assert_eq!(user_amount(&UserOperation::Supply { amount: u64::MAX }), Some(10_000_000_000));
    assert_eq!(user_amount(&UserOperation::Borrow { amount: u64::MAX }), Some(5_000_000_000));
    assert_eq!(user_amount(&UserOperation::Repay { amount: 77 }), Some(77));
    assert_eq!(user_amount(&UserOperation::SetCollateralEnabled { enabled: true }), None);
    assert!(acts_on_target(&UserOperation::Repay { amount: 1 }));
    assert!(!acts_on_target(&UserOperation::Withdraw { amount: 1 }));
    assert_eq!(advance_seconds(10), 10);
    assert_eq!(advance_seconds(u32::MAX), 31_536_000);
    assert!(is_admin(ActorType::PoolAdmin));
    assert!(!is_admin(ActorType::EmergencyAdmin));
    assert!(is_emergency_admin(ActorType::EmergencyAdmin));
}

#[test]
fn auth_tracker_counts_bypasses() {
    let mut t = AuthTracker::new();
    assert!(t.record_admin_result(ActorType::PoolAdmin, &AuthAdminOperation::SetTreasury, true));
    assert!(!t.record_admin_result(ActorType::RandomUser, &AuthAdminOperation::SetTreasury, true));
    assert_eq!(t.unauthorized_success_count, 1);
    assert!(t.record_admin_result(ActorType::EmergencyAdmin, &AuthAdminOperation::Pause, true));
    assert!(t.record_admin_result(ActorType::PoolAdmin, &AuthAdminOperation::Unpause, false));
    assert_eq!(t.auth_failure_count, 1);
    assert!(t.record_admin_result(ActorType::RandomUser, &AuthAdminOperation::CollectProtocolReserves, true));
    assert_eq!(t.unauthorized_success_count, 2);
    t.record_user_result(ActorType::Supplier, ActorType::Borrower, &UserOperation::BorrowOnBehalf { amount: 5 }, true);
    assert_eq!(t.unauthorized_success_count, 3);
    t.record_user_result(ActorType::Supplier, ActorType::Supplier, &UserOperation::SupplyOnBehalf { amount: 5 }, true);
    assert_eq!(t.unauthorized_success_count, 3);
    assert!(!t.no_unauthorized_successes());
    let mut fresh = AuthTracker::new();
    assert!(fresh.verify_auth_result(false, false));
    assert!(fresh.no_unauthorized_successes());
}

#[test]
fn reserve_configuration_rules() {
    assert!(check_reserve_config_invariants(7500, 8000, 500, 1000));
    assert!(!check_reserve_config_invariants(7500, 7549, 500, 1000));
    assert!(!check_reserve_config_invariants(7500, 8000, 500, 10_001));
    assert!(collateral_config_should_fail(7500, 7500, 0));
    assert!(!collateral_config_should_fail(0, 0, 0));
    assert!(collateral_config_should_fail(10_001, 0, 0));
    let bad_factor = ConfigOperation::SetReserveFactor { factor_bps: 0, hint: ConfigHint::JustAboveMax };
    assert!(operation_should_fail(&bad_factor));
    let ok_factor = ConfigOperation::SetReserveFactor { factor_bps: 100, hint: ConfigHint::Raw };
    assert!(!operation_should_fail(&ok_factor));
    let cap = ConfigOperation::SetSupplyCap { cap_low: 5, cap_high: 1, hint: ConfigHint::Raw };
    assert!(operation_should_fail(&cap));
    assert!(!operation_should_fail(&ConfigOperation::SetReserveActive { active: false }));
    assert_eq!(process_cap_value(5, 0, ConfigHint::Raw), 5);
    assert_eq!(process_cap_value(5, 1, ConfigHint::Raw), (1u128 << 64) + 5);
    assert_eq!(process_cap_value(0, u64::MAX, ConfigHint::Raw), 2 * (u64::MAX as u128));
    assert_eq!(process_cap_value(0, 0, ConfigHint::JustAboveMax), (u64::MAX as u128) + 1);
    assert_eq!(initial_ltv_threshold(9999, 0), (9850, 9901));
    assert_eq!(initial_ltv_threshold(5000, 6000), (5000, 6000));
    assert_eq!(initial_ltv_threshold(5000, 5010), (5000, 5051));
    let p = reserve_init_params(20_000);
    assert_eq!(p.ltv, 9949);
    assert_eq!(p.liquidation_threshold, 10_000);
    assert_eq!(p.decimals, 7);
}

#[test]
fn pause_roles_follow_the_documented_split() {
    let mut t = AuthTracker::new();
    assert!(!t.record_admin_result(ActorType::EmergencyAdmin, &AuthAdminOperation::Unpause, true));
    assert_eq!(t.unauthorized_success_count, 1);
    assert!(!t.record_admin_result(ActorType::PoolAdmin, &AuthAdminOperation::Pause, true));
    assert_eq!(t.unauthorized_success_count, 2);
    assert!(t.record_admin_result(ActorType::PoolAdmin, &AuthAdminOperation::Unpause, true));
    assert!(t.record_admin_result(ActorType::EmergencyAdmin, &AuthAdminOperation::Pause, false));
    assert_eq!(t.auth_failure_count, 1);
    assert!(t.record_admin_result(ActorType::PoolAdmin, &AuthAdminOperation::Pause, false));
    assert_eq!(t.auth_failure_count, 1);
}
