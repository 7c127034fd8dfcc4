//! Seed-corpus encoder for the lending-operations fuzzer.
//!
//! A seed approximates the bytes that the fuzzing engine hands to the
//! `LendingInput` decoder:
//! - initial_supply_user1: 8 bytes (u64 little-endian)
//! - initial_supply_user2: 8 bytes (u64 little-endian)
//! - initial_supply_hint: 1 byte (enum discriminant 0-4)
//! - operations[16]: for each one byte for the option discriminant
//!   (0 = None, 1 = Some) and, if Some, one byte for the operation
//!   discriminant followed by its payload bytes.
use vstd::prelude::*;
use vstd::bytes::{spec_u16_to_le_bytes, spec_u32_to_le_bytes, spec_u64_to_le_bytes};

verus! {

/// User discriminants
pub const USER1: u8 = 0;
pub const USER2: u8 = 1;

/// Operation discriminants
pub const OP_SUPPLY: u8 = 0;
pub const OP_BORROW: u8 = 1;
pub const OP_REPAY: u8 = 2;
pub const OP_WITHDRAW: u8 = 3;
pub const OP_ADVANCE_TIME: u8 = 4;
pub const OP_SUPPLY_MORE: u8 = 5;
pub const OP_PARTIAL_WITHDRAW: u8 = 6;
pub const OP_REPAY_ALL: u8 = 7;
pub const OP_WITHDRAW_ALL: u8 = 8;
pub const OP_SET_PRICE: u8 = 9;
pub const OP_LIQUIDATE: u8 = 10;
pub const OP_SET_COLLATERAL: u8 = 11;

/// Amount hint discriminants
pub const HINT_RAW: u8 = 0;
pub const HINT_MAX: u8 = 1;
pub const HINT_MIN: u8 = 2;
pub const HINT_POWER_OF_TWO: u8 = 3;
pub const HINT_LTV_BOUNDARY: u8 = 4;

/// Number of operation slots in a lending input.
pub const OP_SLOTS: usize = 16;

/// Builds the bytes of one seed.
pub struct SeedBuilder {
    bytes: Vec<u8>,
    op_count: usize,
}

/// `n` copies of the byte that encodes `None`.
pub open spec fn none_bytes(n: nat) -> Seq<u8> {
    Seq::new(n, |i: int| 0u8)
}

/// The bytes of an operation with a user and a u64 amount.
pub open spec fn user_amount_op(op: u8, user: u8, amount: u64) -> Seq<u8> {
    seq![1u8, op, user] + spec_u64_to_le_bytes(amount)
}

impl SeedBuilder {
    /// The bytes written so far.
    pub closed spec fn encoded(&self) -> Seq<u8> {
        self.bytes@
    }

    /// The number of operation slots written so far.
    pub closed spec fn ops(&self) -> nat {
        self.op_count as nat
    }

    /// An empty seed.
    pub fn new() -> (b: Self)
        ensures
            b.encoded() == Seq::<u8>::empty(),
            b.ops() == 0,
    {
        SeedBuilder { bytes: Vec::new(), op_count: 0 }
    }

    /// Writes both initial supplies and the amount hint (reduced mod 5).
    pub fn initial_supplies(self, user1_amount: u64, user2_amount: u64, hint: u8) -> (b: Self)
        ensures
            b.encoded() == self.encoded() + spec_u64_to_le_bytes(user1_amount)
                + spec_u64_to_le_bytes(user2_amount) + seq![hint % 5],
            b.ops() == self.ops(),
    {
        let mut s = self;
        let mut a = vstd::bytes::u64_to_le_bytes(user1_amount);
        s.bytes.append(&mut a);
        let mut c = vstd::bytes::u64_to_le_bytes(user2_amount);
        s.bytes.append(&mut c);
        s.bytes.push(hint % 5);
        s
    }

    /// Writes an empty operation slot.
    pub fn none_op(self) -> (b: Self)
        requires
            self.ops() < usize::MAX,
        ensures
            b.encoded() == self.encoded().push(0u8),
            b.ops() == self.ops() + 1,
    {
        let mut s = self;
        s.bytes.push(0);
        s.op_count = s.op_count + 1;
        s
    }

    /// Writes an operation made of its discriminant, a user and an amount.
    fn user_amount(self, op: u8, user: u8, amount: u64) -> (b: Self)
        requires
            self.ops() < usize::MAX,
        ensures
            b.encoded() == self.encoded() + user_amount_op(op, user, amount),
            b.ops() == self.ops() + 1,
    {
        let mut s = self;
        s.bytes.push(1);
        s.bytes.push(op);
        s.bytes.push(user);
        let mut a = vstd::bytes::u64_to_le_bytes(amount);
        s.bytes.append(&mut a);
        s.op_count = s.op_count + 1;
        proof {
            assert(s.bytes@ =~= self.bytes@ + user_amount_op(op, user, amount));
        }
        s
    }

    /// Writes a Supply operation.
    pub fn supply(self, user: u8, amount: u64) -> (b: Self)
        requires
            self.ops() < usize::MAX,
        ensures
            b.encoded() == self.encoded() + user_amount_op(OP_SUPPLY, user, amount),
            b.ops() == self.ops() + 1,
    {
        self.user_amount(OP_SUPPLY, user, amount)
    }

    /// Writes a Borrow operation.
    pub fn borrow(self, user: u8, amount: u64) -> (b: Self)
        requires
            self.ops() < usize::MAX,
        ensures
            b.encoded() == self.encoded() + user_amount_op(OP_BORROW, user, amount),
            b.ops() == self.ops() + 1,
    {
        self.user_amount(OP_BORROW, user, amount)
    }

    /// Writes a Repay operation.
    pub fn repay(self, user: u8, amount: u64) -> (b: Self)
        requires
            self.ops() < usize::MAX,
        ensures
            b.encoded() == self.encoded() + user_amount_op(OP_REPAY, user, amount),
            b.ops() == self.ops() + 1,
    {
        self.user_amount(OP_REPAY, user, amount)
    }

    /// Writes a Withdraw operation.
    pub fn withdraw(self, user: u8, amount: u64) -> (b: Self)
        requires
            self.ops() < usize::MAX,
        ensures
            b.encoded() == self.encoded() + user_amount_op(OP_WITHDRAW, user, amount),
            b.ops() == self.ops() + 1,
    {
        self.user_amount(OP_WITHDRAW, user, amount)
    }

    /// Writes an AdvanceTime operation.
    pub fn advance_time(self, seconds: u32) -> (b: Self)
        requires
            self.ops() < usize::MAX,
        ensures
            b.encoded() == self.encoded() + seq![1u8, OP_ADVANCE_TIME] + spec_u32_to_le_bytes(
                seconds,
            ),
            b.ops() == self.ops() + 1,
    {
        let mut s = self;
        s.bytes.push(1);
        s.bytes.push(OP_ADVANCE_TIME);
        let mut a = vstd::bytes::u32_to_le_bytes(seconds);
        s.bytes.append(&mut a);
        s.op_count = s.op_count + 1;
        proof {
            assert(s.bytes@ =~= self.bytes@ + seq![1u8, OP_ADVANCE_TIME] + spec_u32_to_le_bytes(
                seconds,
            ));
        }
        s
    }

    /// Writes a SupplyMore operation.
    pub fn supply_more(self, user: u8, amount: u64) -> (b: Self)
        requires
            self.ops() < usize::MAX,
        ensures
            b.encoded() == self.encoded() + user_amount_op(OP_SUPPLY_MORE, user, amount),
            b.ops() == self.ops() + 1,
    {
        self.user_amount(OP_SUPPLY_MORE, user, amount)
    }

    /// Writes a PartialWithdraw operation.
    pub fn partial_withdraw(self, user: u8, percent: u8) -> (b: Self)
        requires
            self.ops() < usize::MAX,
        ensures
            b.encoded() == self.encoded() + seq![1u8, OP_PARTIAL_WITHDRAW, user, percent],
            b.ops() == self.ops() + 1,
    {
        let mut s = self;
        s.bytes.push(1);
        s.bytes.push(OP_PARTIAL_WITHDRAW);
        s.bytes.push(user);
        s.bytes.push(percent);
        s.op_count = s.op_count + 1;
        proof {
            assert(s.bytes@ =~= self.bytes@ + seq![1u8, OP_PARTIAL_WITHDRAW, user, percent]);
        }
        s
    }

    /// Writes a RepayAll operation.
    pub fn repay_all(self, user: u8) -> (b: Self)
        requires
            self.ops() < usize::MAX,
        ensures
            b.encoded() == self.encoded() + seq![1u8, OP_REPAY_ALL, user],
            b.ops() == self.ops() + 1,
    {
        let mut s = self;
        s.bytes.push(1);
        s.bytes.push(OP_REPAY_ALL);
        s.bytes.push(user);
        s.op_count = s.op_count + 1;
        proof {
            assert(s.bytes@ =~= self.bytes@ + seq![1u8, OP_REPAY_ALL, user]);
        }
        s
    }

    /// Writes a WithdrawAll operation.
    pub fn withdraw_all(self, user: u8) -> (b: Self)
        requires
            self.ops() < usize::MAX,
        ensures
            b.encoded() == self.encoded() + seq![1u8, OP_WITHDRAW_ALL, user],
            b.ops() == self.ops() + 1,
    {
        let mut s = self;
        s.bytes.push(1);
        s.bytes.push(OP_WITHDRAW_ALL);
        s.bytes.push(user);
        s.op_count = s.op_count + 1;
        proof {
            assert(s.bytes@ =~= self.bytes@ + seq![1u8, OP_WITHDRAW_ALL, user]);
        }
        s
    }

    /// Writes a SetPrice operation.
    pub fn set_price(self, price_bps: u16) -> (b: Self)
        requires
            self.ops() < usize::MAX,
        ensures
            b.encoded() == self.encoded() + seq![1u8, OP_SET_PRICE] + spec_u16_to_le_bytes(
                price_bps,
            ),
            b.ops() == self.ops() + 1,
    {
        let mut s = self;
        s.bytes.push(1);
        s.bytes.push(OP_SET_PRICE);
        let mut a = vstd::bytes::u16_to_le_bytes(price_bps);
        s.bytes.append(&mut a);
        s.op_count = s.op_count + 1;
        proof {
            assert(s.bytes@ =~= self.bytes@ + seq![1u8, OP_SET_PRICE] + spec_u16_to_le_bytes(
                price_bps,
            ));
        }
        s
    }

    /// Writes a Liquidate operation.
    pub fn liquidate(self, liquidator: u8, borrower: u8, amount: u64) -> (b: Self)
        requires
            self.ops() < usize::MAX,
        ensures
            b.encoded() == self.encoded() + seq![1u8, OP_LIQUIDATE, liquidator, borrower]
                + spec_u64_to_le_bytes(amount),
            b.ops() == self.ops() + 1,
    {
        let mut s = self;
        s.bytes.push(1);
        s.bytes.push(OP_LIQUIDATE);
        s.bytes.push(liquidator);
        s.bytes.push(borrower);
        let mut a = vstd::bytes::u64_to_le_bytes(amount);
        s.bytes.append(&mut a);
        s.op_count = s.op_count + 1;
        proof {
            assert(s.bytes@ =~= self.bytes@ + seq![1u8, OP_LIQUIDATE, liquidator, borrower]
                + spec_u64_to_le_bytes(amount));
        }
        s
    }

    /// Writes a SetCollateralEnabled operation.
    pub fn set_collateral_enabled(self, user: u8, enabled: bool) -> (b: Self)
        requires
            self.ops() < usize::MAX,
        ensures
            b.encoded() == self.encoded() + seq![
                1u8,
                OP_SET_COLLATERAL,
                user,
                if enabled {
                    1u8
                } else {
                    0u8
                },
            ],
            b.ops() == self.ops() + 1,
    {
        let mut s = self;
        s.bytes.push(1);
        s.bytes.push(OP_SET_COLLATERAL);
        s.bytes.push(user);
        s.bytes.push(
            if enabled {
                1
            } else {
                0
            },
        );
        s.op_count = s.op_count + 1;
        proof {
            assert(s.bytes@ =~= self.bytes@ + seq![
                1u8,
                OP_SET_COLLATERAL,
                user,
                if enabled {
                    1u8
                } else {
                    0u8
                },
            ]);
        }
        s
    }

    /// Pads the remaining operation slots (up to 16) with empty ones.
    pub fn fill_nones(self) -> (b: Self)
        ensures
            self.ops() < OP_SLOTS ==> b.encoded() == self.encoded() + none_bytes(
                (OP_SLOTS - self.ops()) as nat,
            ) && b.ops() == OP_SLOTS,
            self.ops() >= OP_SLOTS ==> b.encoded() == self.encoded() && b.ops() == self.ops(),
    {
        let mut s = self;
        while s.op_count < OP_SLOTS
            invariant
                self.ops() < OP_SLOTS ==> s.ops() <= OP_SLOTS && s.ops() >= self.ops()
                    && s.encoded() == self.encoded() + none_bytes((s.ops() - self.ops()) as nat),
                self.ops() >= OP_SLOTS ==> s.encoded() == self.encoded() && s.ops()
                    == self.ops(),
            decreases OP_SLOTS - s.op_count,
        {
            s = s.none_op();
            proof {
                assert(s.encoded() =~= self.encoded() + none_bytes((s.ops() - self.ops()) as nat));
            }
        }
        s
    }

    /// The finished seed.
    pub fn build(self) -> (bytes: Vec<u8>)
        ensures
            bytes@ == self.encoded(),
    {
        self.bytes
    }
}

} // verus!
