use k2_router_fuzz::seeds::SeedBuilder;
use k2_router_fuzz::seeds::HINT_MAX;
use k2_router_fuzz::seeds::OP_ADVANCE_TIME;
use k2_router_fuzz::seeds::OP_LIQUIDATE;
use k2_router_fuzz::seeds::OP_SET_COLLATERAL;
use k2_router_fuzz::seeds::OP_SET_PRICE;
use k2_router_fuzz::seeds::OP_SUPPLY;
use k2_router_fuzz::seeds::OP_WITHDRAW_ALL;
use k2_router_fuzz::seeds::USER1;
use k2_router_fuzz::seeds::USER2;

#[test]
fn initial_supplies_are_little_endian_with_reduced_hint() {
    let bytes = SeedBuilder::new().initial_supplies(1, 0x0102, 7).build();
    assert_eq!(
        bytes,
        vec![1, 0, 0, 0, 0, 0, 0, 0, 2, 1, 0, 0, 0, 0, 0, 0, 2]
    );
}

#[test]
fn supply_operation_bytes() {
    let bytes = SeedBuilder::new().supply(USER2, 256).build();
    assert_eq!(bytes, vec![1, OP_SUPPLY, USER2, 0, 1, 0, 0, 0, 0, 0, 0]);
}

#[test]
fn advance_time_and_price_bytes() {
    let bytes = SeedBuilder::new()
        .advance_time(0x01020304)
        .set_price(0x0a0b)
        .build();
    assert_eq!(
        bytes,
        vec![1, OP_ADVANCE_TIME, 4, 3, 2, 1, 1, OP_SET_PRICE, 0x0b, 0x0a]
    );
}

#[test]
fn liquidate_and_collateral_bytes() {
    let bytes = SeedBuilder::new()
        .liquidate(USER2, USER1, 5)
        .set_collateral_enabled(USER1, true)
        .set_collateral_enabled(USER2, false)
        .withdraw_all(USER1)
        .build();
    assert_eq!(
        bytes,
        vec![
            1,
            OP_LIQUIDATE,
            USER2,
            USER1,
            5,
            0,
            0,
            0,
            0,
            0,
            0,
            0,
            1,
            OP_SET_COLLATERAL,
            USER1,
            1,
            1,
            OP_SET_COLLATERAL,
            USER2,
            0,
            1,
            OP_WITHDRAW_ALL,
            USER1
        ]
    );
}

#[test]
fn fill_nones_pads_to_sixteen_slots() {
    let bytes = SeedBuilder::new()
        .initial_supplies(0, 0, HINT_MAX)
        .none_op()
        .supply(USER1, 1)
        .fill_nones()
        .build();
    // 17 header bytes, one None, one Supply of 11 bytes, then 14 Nones.
    assert_eq!(bytes.len(), 17 + 1 + 11 + 14);
    assert_eq!(bytes[16], HINT_MAX);
    assert_eq!(bytes[17], 0);
    assert!(bytes[29..].iter().all(|b| *b == 0));
}

#[test]
fn fill_nones_on_full_seed_adds_nothing() {
    let mut builder = SeedBuilder::new();
    for _ in 0..16 {
        builder = builder.repay_all(USER1);
    }
    let before_len = 16 * 3;
    let bytes = builder.fill_nones().build();
    assert_eq!(bytes.len(), before_len);
}
