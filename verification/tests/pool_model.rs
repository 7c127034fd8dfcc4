use arbitrary::Unstructured;
use k2_router_fuzz::common::constants::INITIAL_BALANCE;
use k2_router_fuzz::common::constants::MAX_PRICE;
use k2_router_fuzz::common::constants::MIN_PRICE;
use k2_router_fuzz::common::constants::RAY;
use k2_router_fuzz::common::generation::adversarial_op_from;
use k2_router_fuzz::common::generation::admin_op_from;
use k2_router_fuzz::common::generation::borrow_op_from;
use k2_router_fuzz::common::generation::category_weights;
use k2_router_fuzz::common::generation::edge_case_op_from;
use k2_router_fuzz::common::generation::environmental_op_from;
use k2_router_fuzz::common::generation::flash_loan_op_from;
use k2_router_fuzz::common::generation::liquidation_op_from;
use k2_router_fuzz::common::generation::oracle_op_from;
use k2_router_fuzz::common::generation::repay_op_from;
use k2_router_fuzz::common::generation::supply_op_from;
use k2_router_fuzz::common::generation::warp_range_for;
use k2_router_fuzz::common::generation::withdraw_op_from;
use k2_router_fuzz::common::stats::OperationStats;
use k2_router_fuzz::common::stats::STAT_PAUSE_PROTOCOL;
use k2_router_fuzz::common::stats::STAT_TIME_WARP;
use k2_router_fuzz::common::generation::generate_asset_config;
use k2_router_fuzz::common::generation::generate_input;
use k2_router_fuzz::common::generation::generate_operation_for_category;
use k2_router_fuzz::common::generation::generate_receiver_type;
use k2_router_fuzz::common::generation::generate_stateful_operation;
use k2_router_fuzz::common::generation::generate_supply_operation;
use k2_router_fuzz::common::generation::receiver_type_for;
use k2_router_fuzz::common::generation::select_category;
use k2_router_fuzz::common::generation::state_flags;
use k2_router_fuzz::common::generation::OperationCategory;
use k2_router_fuzz::common::generation::StateFlags;
use k2_router_fuzz::common::operations::FlashLoanReceiverType;
use k2_router_fuzz::common::operations::Operation;
use k2_router_fuzz::common::simulation::percent_at_least_one;
use k2_router_fuzz::common::simulation::SimulatedState;

const BAL: u128 = INITIAL_BALANCE as u128;

fn supplied_and_borrowed() -> SimulatedState {
    let mut s = SimulatedState::default();
    s.update(&Operation::Supply { user_idx: 1, asset_idx: 2, amount_percent: 10 });
    s.update(&Operation::Borrow { user_idx: 9, asset_idx: 6, amount_percent: 100 });
    s
}

#[test]
fn default_state() {
    let s = SimulatedState::default();
    assert_eq!(s.underlying_of(3, 1), BAL);
    assert_eq!(s.collateral_of(3, 1), 0);
    assert!(!s.is_paused());
    assert!(!s.any_collateral());
    assert!(!s.any_debt());
    assert_eq!(s.health_factor(0), u128::MAX);
    assert_eq!(s.best_user_for_supply(0), 7);
    assert_eq!(s.first_funded_user(0), Some(0));
    assert_eq!(s.best_user_for_liquidation(), None);
}

#[test]
fn supply_moves_underlying_into_collateral() {
    let mut s = SimulatedState::default();
    s.update(&Operation::Supply { user_idx: 1, asset_idx: 2, amount_percent: 10 });
    assert_eq!(s.underlying_of(1, 2), BAL - BAL / 10);
    assert_eq!(s.collateral_of(1, 2), BAL / 10);
    assert!(s.has_collateral(1));
    assert!(s.has_liquidity(2));
    assert!(!s.has_liquidity(0));
    assert_eq!(s.best_user_for_withdraw(2), 1);
    assert_eq!(s.first_collateral_asset(1), Some(2));
    assert_eq!(s.best_asset_for_flashloan(), 2);
    assert_eq!(s.best_user_for_supply(2), 7);
}

#[test]
fn borrow_is_a_quarter_of_collateral() {
    let s = supplied_and_borrowed();
    // user 9 % 8 = 1, asset 6 % 4 = 2; max borrow = collateral / 4
    let borrowed = BAL / 10 / 4;
    assert_eq!(s.total_debt(1), borrowed);
    assert_eq!(s.underlying_of(1, 2), BAL - BAL / 10 + borrowed);
    assert_eq!(s.total_collateral_value(1), BAL / 10);
    assert_eq!(s.health_factor(1), 30_000);
    assert!(s.has_debt(1));
    assert_eq!(s.first_asset_with_debt(), Some(2));
    assert_eq!(s.first_debt_asset(1), Some(2));
    assert_eq!(s.best_user_for_repay(2), 1);
    assert_eq!(s.best_user_for_borrow(), 1);
    assert_eq!(s.best_user_for_liquidation(), Some(1));
    assert!(!s.has_low_health_user());
    assert!(s.can_safely_withdraw(1, 2, 1));
    assert!(!s.can_safely_withdraw(1, 2, BAL / 10));
}

#[test]
fn repay_all_clears_debt() {
    let mut s = supplied_and_borrowed();
    s.update(&Operation::RepayAll { user_idx: 1, asset_idx: 2 });
    assert_eq!(s.total_debt(1), 0);
    assert!(!s.any_debt());
    s.update(&Operation::WithdrawAll { user_idx: 1, asset_idx: 2 });
    assert_eq!(s.collateral_of(1, 2), 0);
    assert_eq!(s.underlying_of(1, 2), BAL);
}

#[test]
fn pause_and_unmodelled_operations() {
    let mut s = SimulatedState::default();
    s.update(&Operation::PauseProtocol);
    assert!(s.is_paused());
    s.update(&Operation::TimeWarp { seconds: 10 });
    assert!(s.is_paused());
    assert_eq!(s.underlying_of(0, 0), BAL);
    s.update(&Operation::UnpauseProtocol);
    assert!(!s.is_paused());
    assert_eq!(percent_at_least_one(5, 10), 1);
    assert_eq!(percent_at_least_one(1000, 10), 100);
}

#[test]
fn receiver_types_by_roll() {
    assert_eq!(receiver_type_for(0), FlashLoanReceiverType::Standard);
    assert_eq!(receiver_type_for(3), FlashLoanReceiverType::NonRepaying);
    assert_eq!(receiver_type_for(200), FlashLoanReceiverType::OracleManipulating);
    let data = [4u8];
    let mut u = Unstructured::new(&data);
    assert_eq!(generate_receiver_type(&mut u).unwrap(), FlashLoanReceiverType::StateManipulating);
}

#[test]
fn asset_config_from_bytes() {
    let data = [0x01u8, 0x02, 0x03, 0x04, 0x05, 0x06, 0x07, 0x08];
    let mut u = Unstructured::new(&data);
    let c = generate_asset_config(&mut u).unwrap();
    assert_eq!(c.ltv, 1258);
    assert_eq!(c.liquidation_threshold, 1758 + 0x0304);
    assert_eq!(c.liquidation_bonus, 100 + 0x0506);
    assert_eq!(c.reserve_factor, 0x0708);
    assert_eq!(c.base_rate, 0);
    assert_eq!(c.slope1, RAY / 100);
    assert_eq!(c.slope2, RAY / 10);
    assert_eq!(c.optimal_utilization, RAY / 2);
    assert_eq!(c.supply_cap, 0);
    assert_eq!(c.borrow_cap, 0);
    assert!(!c.flashloan_enabled);
}

#[test]
fn supply_operation_from_bytes() {
    let s = SimulatedState::default();
    let data = [2u8, 1, 50];
    let mut u = Unstructured::new(&data);
    let op = generate_supply_operation(&mut u, &s).unwrap();
    match op {
        Operation::Supply { user_idx, asset_idx, amount_percent } => {
            assert_eq!(user_idx, 7);
            assert_eq!(asset_idx, 2);
            assert_eq!(amount_percent, 49);
        }
        other => panic!("unexpected operation {:?}", other),
    }
    let data = [0u8, 4, 3, 41];
    let mut u = Unstructured::new(&data);
    match generate_supply_operation(&mut u, &s).unwrap() {
        Operation::SupplyOnBehalf { recipient_idx, amount_percent, .. } => {
            assert_eq!(recipient_idx, 3);
            assert_eq!(amount_percent, 40);
        }
        other => panic!("unexpected operation {:?}", other),
    }
}

#[test]
fn first_operations_are_supplies() {
    let s = SimulatedState::default();
    let data = [9u8; 64];
    let mut u = Unstructured::new(&data);
    for i in 0..3 {
        let op = generate_stateful_operation(&mut u, &s, i, 10).unwrap();
        assert!(matches!(
            op,
            Operation::Supply { .. } | Operation::SupplyOnBehalf { .. }
        ));
    }
}

#[test]
fn category_tables_and_selection() {
    let empty = StateFlags {
        has_collateral: false,
        has_debt: false,
        has_liquidity: false,
        has_low_health: false,
        top_healthy_mid: false,
        top_healthy_late: false,
    };
    let early = category_weights(0, &empty);
    assert_eq!(
        early,
        vec![
            (OperationCategory::Supply, 5),
            (OperationCategory::Environmental, 1),
            (OperationCategory::Oracle, 1)
        ]
    );
    assert_eq!(select_category(&early, 4), OperationCategory::Supply);
    assert_eq!(select_category(&early, 5), OperationCategory::Environmental);
    assert_eq!(select_category(&early, 6), OperationCategory::Oracle);
    assert_eq!(select_category(&early, 7), OperationCategory::Supply);
    let s = supplied_and_borrowed();
    let f = state_flags(&s);
    assert!(f.has_collateral);
    assert!(f.has_debt);
    assert!(f.has_liquidity);
    assert!(!f.has_low_health);
}

#[test]
fn admin_category_operation() {
    let s = SimulatedState::default();
    let data = [7u8; 64];
    let mut u = Unstructured::new(&data);
    let op = generate_operation_for_category(&mut u, OperationCategory::Admin, &s).unwrap();
    match op {
        Operation::UpdateReserveConfiguration { asset_idx, ltv, liquidation_threshold, liquidation_bonus } => {
            assert!(asset_idx <= 3);
            assert!((1000..=7500).contains(&ltv));
            assert!(ltv + 500 <= liquidation_threshold && liquidation_threshold <= 9000);
            assert!((100..=1500).contains(&liquidation_bonus));
        }
        Operation::SetReserveSupplyCap { asset_idx, cap } => assert!(asset_idx <= 3 && cap <= 1_000_000),
        Operation::SetReserveBorrowCap { asset_idx, cap } => assert!(asset_idx <= 3 && cap <= 500_000),
        Operation::SetReserveWhitelist { asset_idx, user_idx, .. } => assert!(asset_idx <= 3 && user_idx <= 7),
        Operation::SetReserveActive { asset_idx, .. } => assert!(asset_idx <= 3),
        Operation::SetReserveFrozen { asset_idx, .. } => assert!(asset_idx <= 3),
        other => panic!("unexpected operation {:?}", other),
    }
}

#[test]
fn generated_inputs_have_their_shape() {
    let data: Vec<u8> = (0..4096u32).map(|i| (i * 37 % 251) as u8).collect();
    let mut u = Unstructured::new(&data);
    let input = generate_input(&mut u).unwrap();
    assert!(input.operations.len() >= 5 && input.operations.len() <= 25);
    for c in input.asset_configs.iter() {
        assert!(c.ltv >= 1000 && c.ltv <= 7500);
        assert!(c.liquidation_threshold >= c.ltv + 500 && c.liquidation_threshold <= 9000);
    }
    for p in input.initial_prices.iter() {
        assert!(*p >= MIN_PRICE && *p <= MAX_PRICE);
    }
    for op in input.operations.iter().take(3) {
        assert!(matches!(
            op,
            Operation::Supply { .. } | Operation::SupplyOnBehalf { .. }
        ));
    }
}

#[test]
fn generated_input_length_follows_first_byte() {
    let mut data = vec![3u8];
    data.extend(std::iter::repeat(0u8).take(512));
    let mut u = Unstructured::new(&data);
    let input = generate_input(&mut u).unwrap();
    assert_eq!(input.operations.len(), 8);
}

#[test]
fn asset_config_draws_rates_and_caps() {
    let mut data = vec![0x01u8, 0x02, 0x03, 0x04, 0x05, 0x06, 0x07, 0x08];
    data.extend(std::iter::repeat(0x05u8).take(60));
    let mut u = Unstructured::new(&data);
    let c = generate_asset_config(&mut u).unwrap();
    assert_eq!(c.base_rate, 6_068_333_525_908_726_837_740_805);
    assert_eq!(c.slope1, 16_068_333_525_908_726_837_740_805);
    assert_eq!(c.slope2, 753_493_382_632_634_070_461_646_084);
    assert_eq!(c.optimal_utilization, 853_493_382_632_634_070_461_646_082);
    assert_eq!(c.supply_cap, 329_965);
    assert_eq!(c.borrow_cap, 329_465);
    assert!(c.flashloan_enabled);
}

#[test]
fn oracle_price_change_from_bytes() {
    let s = SimulatedState::default();
    let data = [1u8, 2, 0x10, 0x00];
    let mut u = Unstructured::new(&data);
    match generate_operation_for_category(&mut u, OperationCategory::Oracle, &s).unwrap() {
        Operation::PriceChange { asset_idx, price_change_bps } => {
            assert_eq!(asset_idx, 2);
            assert_eq!(price_change_bps, 1096);
        }
        other => panic!("unexpected operation {:?}", other),
    }
}

fn show(op: Operation) -> String {
    format!("{:?}", op)
}

#[test]
fn drawn_values_assemble_operations() {
    assert_eq!(show(supply_op_from(7, 2, 3, 5, 60)), show(Operation::Supply { user_idx: 7, asset_idx: 2, amount_percent: 60 }));
    assert_eq!(
        show(supply_op_from(7, 2, 4, 5, 60)),
        show(Operation::SupplyOnBehalf { user_idx: 7, recipient_idx: 5, asset_idx: 2, amount_percent: 60 })
    );
    assert_eq!(show(withdraw_op_from(1, 0, true, 1, 0, 20)), show(Operation::Withdraw { user_idx: 1, asset_idx: 0, amount_percent: 20 }));
    assert_eq!(show(withdraw_op_from(1, 0, false, 1, 0, 20)), show(Operation::WithdrawAll { user_idx: 1, asset_idx: 0 }));
    assert_eq!(show(borrow_op_from(1, 3, 2, 6, 15)), show(Operation::BorrowToRecipient { user_idx: 1, recipient_idx: 6, asset_idx: 3, amount_percent: 15 }));
    assert_eq!(show(repay_op_from(1, 3, false, 0, 4, 30)), show(Operation::RepayOnBehalf { payer_idx: 4, borrower_idx: 1, asset_idx: 3, amount_percent: 30 }));
    assert_eq!(show(repay_op_from(1, 3, true, 2, 4, 30)), show(Operation::RepayAll { user_idx: 1, asset_idx: 3 }));
    assert_eq!(
        show(liquidation_op_from(2, 1, 0, 3, true, 0, 50)),
        show(Operation::CreateAndLiquidate { liquidator_idx: 2, user_idx: 1, collateral_idx: 0, debt_idx: 3 })
    );
    assert_eq!(
        show(liquidation_op_from(2, 1, 0, 3, false, 1, 50)),
        show(Operation::LiquidateReceiveAToken { liquidator_idx: 2, user_idx: 1, collateral_idx: 0, debt_idx: 3, amount_percent: 50 })
    );
    assert_eq!(
        show(flash_loan_op_from(FlashLoanReceiverType::Standard, 1, 2, 3, 40, 2, 70)),
        show(Operation::MultiAssetFlashLoan {
            user_idx: 3,
            asset_indices: [1, 2],
            amount_percents: [40, 70],
            receiver_type: FlashLoanReceiverType::Standard
        })
    );
    assert_eq!(show(oracle_op_from(3, 1, 0, 4)), show(Operation::PriceVolatility { asset_idx: 1, swings: 4 }));
    assert_eq!(warp_range_for(2), (86400, 604800));
    assert_eq!(show(environmental_op_from(4, true, 0, 0, 0)), show(Operation::UnpauseProtocol));
    assert_eq!(show(edge_case_op_from(3, 1, 2, 9, 0)), show(Operation::DustBorrow { user_idx: 1, asset_idx: 2, dust_amount: 9 }));
    assert_eq!(
        show(adversarial_op_from(1, 6, 2, 0, 3, 0, 4)),
        show(Operation::RapidBorrowRepay { user_idx: 6, asset_idx: 3, iterations: 4 })
    );
    assert_eq!(
        show(adversarial_op_from(6, 6, 2, 0, 3, 1, 0)),
        show(Operation::BorrowMaxWithdrawAttempt { user_idx: 2, supply_asset_idx: 3, borrow_asset_idx: 1 })
    );
    assert_eq!(show(admin_op_from(4, 2, 0, 0, 0, 0, 0, true)), show(Operation::SetReserveActive { asset_idx: 2, active: true }));
}

#[test]
fn operation_counters_sum_to_total() {
    let mut stats = OperationStats::new();
    stats.record_operation(&Operation::PauseProtocol, true);
    stats.record_operation(&Operation::TimeWarp { seconds: 1 }, false);
    stats.record_operation(&Operation::PauseProtocol, true);
    assert_eq!(stats.total_ops, 3);
    assert_eq!(stats.successful_ops, 2);
    assert_eq!(stats.counts.iter().sum::<u64>(), 3);
    assert_eq!(stats.counts[STAT_PAUSE_PROTOCOL], 2);
    assert_eq!(stats.counts[STAT_TIME_WARP], 1);
}
