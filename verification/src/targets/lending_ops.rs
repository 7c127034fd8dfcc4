//! Lending-operations target: amount processing and accounting invariants of a
//! single reserve shared by two users.
use vstd::prelude::*;
use vstd::arithmetic::power2::pow2;
use crate::targets::views::{ReserveState, UserAccountData};

pub use crate::{AmountHint, LendingInput, Operation, User};
pub use crate::targets::views::{MockReflector, PriceData};

verus! {

/// RAY constant (1e9 in this protocol)
pub const RAY: u128 = 1_000_000_000;
/// Base price with 14 decimals (1 USD)
pub const BASE_PRICE: u128 = 1_000_000_000_000_000;
/// WAD constant for health factor (1e18)
pub const WAD: u128 = 1_000_000_000_000_000_000;
/// Maximum basis points (100%)
pub const MAX_BPS: u128 = 10_000;

/// The amount a hint selects before clamping.
pub open spec fn hinted_amount(raw: u64, hint: AmountHint) -> int {
    match hint {
        AmountHint::Raw => raw as int,
        AmountHint::Max => u64::MAX as int,
        AmountHint::Min => 1,
        AmountHint::PowerOfTwo => if raw == 0 {
            1
        } else {
            pow2((raw % 64) as nat) as int
        },
        AmountHint::LtvBoundary => raw * 8000 / 10000,
    }
}

/// Process an amount based on the hint, then clamp it to `1..=max_allowed`
/// (0 when nothing is allowed).
pub fn process_amount(raw: u64, hint: AmountHint, max_allowed: u128) -> (r: u128)
    ensures
        r == (if max_allowed == 0 {
            0
        } else if hinted_amount(raw, hint) > max_allowed {
            max_allowed as int
        } else if hinted_amount(raw, hint) < 1 {
            1
        } else {
            hinted_amount(raw, hint)
        }),
        max_allowed == 0 <==> r == 0,
        max_allowed > 0 ==> 1 <= r <= max_allowed,
        max_allowed > 0 && hint == AmountHint::Min ==> r == 1,
        max_allowed > 0 && hint == AmountHint::Raw && 1 <= raw <= max_allowed ==> r == raw,
{
    let base_amount: u128 = match hint {
        AmountHint::Raw => raw as u128,
        AmountHint::Max => u64::MAX as u128,
        AmountHint::Min => 1,
        AmountHint::PowerOfTwo => {
            if raw == 0 {
                1
            } else {
                let k = raw % 64;
                proof {
                    vstd::bits::lemma_u64_pow2_no_overflow(k as nat);
                    vstd::bits::lemma_u64_shl_is_mul(1u64, k);
                }
                (1u64 << k) as u128
            }
        },
        AmountHint::LtvBoundary => (raw as u128 * 8000) / 10000,
    };
    if max_allowed == 0 {
        0
    } else {
        let m = if base_amount < max_allowed {
            base_amount
        } else {
            max_allowed
        };
        if m < 1 {
            1
        } else {
            m
        }
    }
}

/// The complete accounting state of the reserve and of both users.
#[derive(Clone, Copy, Debug)]
pub struct AccountingSnapshot {
    /// Total aToken supply (scaled balance)
    pub atoken_total_supply: u128,
    /// Underlying asset balance held by aToken contract
    pub atoken_underlying_balance: u128,
    /// Total debt token supply (scaled balance)
    pub debt_total_supply: u128,
    pub user1_atoken_balance: u128,
    pub user2_atoken_balance: u128,
    pub user1_debt_balance: u128,
    pub user2_debt_balance: u128,
    pub user1_underlying_balance: u128,
    pub user2_underlying_balance: u128,
    pub liquidity_index: u128,
    pub variable_borrow_index: u128,
    /// Treasury accrued balance (protocol fees)
    pub treasury_balance: u128,
    pub timestamp: u64,
}

/// `x + y`, saturating at `u128::MAX`.
pub open spec fn sat_add(x: int, y: int) -> int {
    if x + y > u128::MAX {
        u128::MAX as int
    } else {
        x + y
    }
}

impl AccountingSnapshot {
    /// Underlying held by the pool, both users and the treasury (debt is a
    /// liability, not an asset), saturating at `u128::MAX`.
    pub open spec fn system_value(self) -> int {
        sat_add(
            sat_add(
                sat_add(self.atoken_underlying_balance as int, self.user1_underlying_balance as int),
                self.user2_underlying_balance as int,
            ),
            self.treasury_balance as int,
        )
    }

    /// Total underlying in the system (should be conserved).
    pub fn total_system_value(&self) -> (v: u128)
        ensures
            v == self.system_value(),
    {
        self.atoken_underlying_balance.saturating_add(self.user1_underlying_balance).saturating_add(
            self.user2_underlying_balance,
        ).saturating_add(self.treasury_balance)
    }
}

/// Which accounting invariant a snapshot broke.
#[derive(Clone, Copy, Debug, PartialEq, Eq, Structural)]
pub enum AccountingViolation {
    LiquidityIndexDecreased,
    BorrowIndexDecreased,
    ATokenSumExceedsSupply,
    DebtSumExceedsSupply,
}

/// Tracks accounting state across operations.
#[derive(Debug)]
pub struct AccountingTracker {
    /// Previous snapshot for comparison
    pub previous: Option<AccountingSnapshot>,
    /// Count of conservation violations detected
    pub conservation_violations: u32,
    /// Count of index monotonicity violations
    pub index_violations: u32,
    /// Tolerance for rounding errors (1 unit per operation)
    pub rounding_tolerance: u128,
}

/// Whether the system value moved by more than `tol` from `prev` plus the
/// external mint.
pub open spec fn conservation_broken(
    prev: AccountingSnapshot,
    current: AccountingSnapshot,
    external_mint: u128,
    tol: u128,
) -> bool {
    let expected = sat_add(prev.system_value(), external_mint as int);
    let curr = current.system_value();
    (if curr > expected {
        curr - expected
    } else {
        expected - curr
    }) > tol
}

impl AccountingTracker {
    /// No previous snapshot, no violations, a tolerance of one unit.
    pub fn new() -> (t: Self)
        ensures
            t.previous is None,
            t.conservation_violations == 0,
            t.index_violations == 0,
            t.rounding_tolerance == 1,
    {
        AccountingTracker {
            previous: None,
            conservation_violations: 0,
            index_violations: 0,
            rounding_tolerance: 1,
        }
    }

    /// Compares `current` with the previous snapshot and remembers it.
    ///
    /// Index decreases and user sums above the supplies are violations: the
    /// first one found is returned (an index decrease is also counted) and the
    /// previous snapshot is kept.  A conservation mismatch beyond the tolerance
    /// (mints happen outside this tracking) is only counted.
    pub fn update(&mut self, current: AccountingSnapshot, external_mint: u128) -> (r: Option<
        AccountingViolation,
    >)
        requires
            old(self).previous matches Some(prev) ==> (conservation_broken(
                prev,
                current,
                external_mint,
                old(self).rounding_tolerance,
            ) ==> old(self).conservation_violations < u32::MAX),
            old(self).index_violations < u32::MAX,
        ensures
            final(self).rounding_tolerance == old(self).rounding_tolerance,
            old(self).previous is None ==> r is None && final(self).previous == Some(current)
                && final(self).conservation_violations == old(self).conservation_violations
                && final(self).index_violations == old(self).index_violations,
            old(self).previous matches Some(prev) ==> {
                let tol = old(self).rounding_tolerance as int;
                let li_bad = current.liquidity_index < prev.liquidity_index;
                let bi_bad = current.variable_borrow_index < prev.variable_borrow_index;
                let a_bad = sat_add(
                    current.user1_atoken_balance as int,
                    current.user2_atoken_balance as int,
                ) > sat_add(current.atoken_total_supply as int, tol);
                let d_bad = sat_add(
                    current.user1_debt_balance as int,
                    current.user2_debt_balance as int,
                ) > sat_add(current.debt_total_supply as int, tol);
                &&& li_bad ==> r == Some(AccountingViolation::LiquidityIndexDecreased)
                    && final(self).index_violations == old(self).index_violations + 1
                    && final(self).conservation_violations == old(self).conservation_violations
                    && final(self).previous == old(self).previous
                &&& !li_bad && bi_bad ==> r == Some(AccountingViolation::BorrowIndexDecreased)
                    && final(self).index_violations == old(self).index_violations + 1
                    && final(self).conservation_violations == old(self).conservation_violations
                    && final(self).previous == old(self).previous
                &&& !li_bad && !bi_bad ==> {
                    &&& final(self).index_violations == old(self).index_violations
                    &&& final(self).conservation_violations == old(self).conservation_violations
                        + if conservation_broken(prev, current, external_mint, tol as u128) {
                        1int
                    } else {
                        0int
                    }
                    &&& a_bad ==> r == Some(AccountingViolation::ATokenSumExceedsSupply)
                        && final(self).previous == old(self).previous
                    &&& !a_bad && d_bad ==> r == Some(AccountingViolation::DebtSumExceedsSupply)
                        && final(self).previous == old(self).previous
                    &&& !a_bad && !d_bad ==> r is None && final(self).previous == Some(current)
                }
            },
    {
        if let Some(prev) = self.previous {
            if current.liquidity_index < prev.liquidity_index {
                self.index_violations = self.index_violations + 1;
                return Some(AccountingViolation::LiquidityIndexDecreased);
            }
            if current.variable_borrow_index < prev.variable_borrow_index {
                self.index_violations = self.index_violations + 1;
                return Some(AccountingViolation::BorrowIndexDecreased);
            }
            let prev_total = prev.total_system_value();
            let curr_total = current.total_system_value();
            let expected_total = prev_total.saturating_add(external_mint);
            let diff = if curr_total > expected_total {
                curr_total - expected_total
            } else {
                expected_total - curr_total
            };
            if diff > self.rounding_tolerance {
                self.conservation_violations = self.conservation_violations + 1;
            }
            let user_atoken_sum = current.user1_atoken_balance.saturating_add(
                current.user2_atoken_balance,
            );
            if user_atoken_sum > current.atoken_total_supply.saturating_add(
                self.rounding_tolerance,
            ) {
                return Some(AccountingViolation::ATokenSumExceedsSupply);
            }
            let user_debt_sum = current.user1_debt_balance.saturating_add(
                current.user2_debt_balance,
            );
            if user_debt_sum > current.debt_total_supply.saturating_add(self.rounding_tolerance) {
                return Some(AccountingViolation::DebtSumExceedsSupply);
            }
        }
        self.previous = Some(current);
        None
    }

    /// No index monotonicity violation was recorded.
    pub fn assert_no_violations(&self) -> (ok: bool)
        ensures
            ok == (self.index_violations == 0),
    {
        self.index_violations == 0
    }
}

/// What one user looks like to the per-operation checks.
#[derive(Clone, Copy, Debug)]
pub struct UserBalances {
    pub atoken_balance: i128,
    pub debt_balance: i128,
    /// The router's account data, if the query succeeded.
    pub account: Option<UserAccountData>,
}

/// One user's balances and account data are consistent: no negative
/// balance, a positive health factor under debt, and available borrows not
/// above the collateral.
pub open spec fn user_consistent(u: UserBalances) -> bool {
    &&& u.atoken_balance >= 0
    &&& u.debt_balance >= 0
    &&& u.account matches Some(d) ==> (d.total_debt_base > 0 ==> d.health_factor > 0)
        && d.available_borrows_base <= d.total_collateral_base
}

/// The invariants checked after every operation of the lending target: both
/// users consistent, indices at least RAY, the reserve not updated in the
/// future, non-negative supplies, and supply rate not above a positive borrow
/// rate.
pub fn check_invariants(
    user1: &UserBalances,
    user2: &UserBalances,
    reserve: &ReserveState,
    current_ts: u64,
    atoken_supply: i128,
    debt_supply: i128,
) -> (ok: bool)
    requires
        debt_supply == 0 && atoken_supply > 0 ==> atoken_supply * reserve.liquidity_index
            <= u128::MAX,
    ensures
        ok == {
            &&& user_consistent(*user1)
            &&& user_consistent(*user2)
            &&& reserve.liquidity_index >= RAY
            &&& reserve.variable_borrow_index >= RAY
            &&& reserve.last_update_timestamp <= current_ts
            &&& atoken_supply >= 0
            &&& debt_supply >= 0
            &&& reserve.current_variable_borrow_rate > 0 ==> reserve.current_liquidity_rate
                <= reserve.current_variable_borrow_rate
        },
{
    let mut ok = true;
    let users = [user1, user2];
    let mut i: usize = 0;
    while i < 2
        invariant
            i <= 2,
            users@ == seq![user1, user2],
            ok == (forall|j: int| 0 <= j < i ==> user_consistent(*users@[j])),
        decreases 2 - i,
    {
        let u = users[i];
        let mut this = u.atoken_balance >= 0 && u.debt_balance >= 0;
        if let Some(d) = u.account {
            if d.total_debt_base > 0 {
                this = this && d.health_factor > 0;
            }
            this = this && d.available_borrows_base <= d.total_collateral_base;
        }
        ok = ok && this;
        proof {
            assert(this == user_consistent(*u));
        }
        i = i + 1;
    }
    ok = ok && reserve.liquidity_index >= RAY;
    ok = ok && reserve.variable_borrow_index >= RAY;
    ok = ok && reserve.last_update_timestamp <= current_ts;
    ok = ok && atoken_supply >= 0;
    ok = ok && debt_supply >= 0;
    if debt_supply == 0 && atoken_supply > 0 {
        // The scaled supply is only estimated here: interest accrual timing makes
        // it differ from the underlying balance, so it is not compared.
        let _scaled_supply = (atoken_supply as u128 * reserve.liquidity_index) / RAY;
    }
    if reserve.current_variable_borrow_rate > 0 {
        ok = ok && reserve.current_liquidity_rate <= reserve.current_variable_borrow_rate;
    }
    ok
}

} // verus!
