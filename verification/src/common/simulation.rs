//! A cheap simulation of the lending pool that steers operation generation
//! towards operations that are likely to succeed.
//!
//! Eight users and four assets; every user starts with `INITIAL_BALANCE` of
//! each asset.  The simulation tracks underlying balances, collateral, debt
//! and pool liquidity, and answers the questions the generator asks
//! (who has collateral, who is the best liquidation target, ...).
use vstd::prelude::*;
use crate::common::constants::{DUST_THRESHOLD, INITIAL_BALANCE};
use crate::common::operations::Operation;

verus! {

pub const NUM_USERS: usize = 8;
pub const NUM_ASSETS: usize = 4;
/// Number of (user, asset) cells.
pub const NUM_CELLS: usize = 32;

/// Position of the (user, asset) cell in the per-user tables.
pub open spec fn cell(u: int, a: int) -> int {
    u * (NUM_ASSETS as int) + a
}

/// The simulated pool state.
#[derive(Clone)]
pub struct SimulatedState {
    underlying: Vec<u128>,
    collateral: Vec<u128>,
    debt: Vec<u128>,
    pool_liquidity: Vec<u128>,
    paused: bool,
}

/// The mathematical content of a `SimulatedState`: per-(user, asset) tables
/// laid out by `cell`, per-asset pool liquidity, and the pause flag.
pub struct SimView {
    pub underlying: Seq<u128>,
    pub collateral: Seq<u128>,
    pub debt: Seq<u128>,
    pub pool_liquidity: Seq<u128>,
    pub paused: bool,
}

impl View for SimulatedState {
    type V = SimView;

    closed spec fn view(&self) -> SimView {
        SimView {
            underlying: self.underlying@,
            collateral: self.collateral@,
            debt: self.debt@,
            pool_liquidity: self.pool_liquidity@,
            paused: self.paused,
        }
    }
}

/// `x + y`, saturating at `u128::MAX`.
pub open spec fn sat_add(x: u128, y: u128) -> u128 {
    if x + y > u128::MAX {
        u128::MAX
    } else {
        (x + y) as u128
    }
}

/// `x - y`, saturating at zero.
pub open spec fn sat_sub(x: u128, y: u128) -> u128 {
    if x - y < 0 {
        0
    } else {
        (x - y) as u128
    }
}

/// `min(x, y)`.
pub open spec fn min_u128(x: u128, y: u128) -> u128 {
    if x <= y {
        x
    } else {
        y
    }
}

/// `r` is the first position in `0..n` satisfying `p`.
pub open spec fn first_where(p: spec_fn(int) -> bool, n: int, r: int) -> bool {
    &&& 0 <= r < n
    &&& p(r)
    &&& forall|i: int| 0 <= i < r ==> !#[trigger] p(i)
}

/// No position in `0..n` satisfies `p`.
pub open spec fn none_where(p: spec_fn(int) -> bool, n: int) -> bool {
    forall|i: int| 0 <= i < n ==> !#[trigger] p(i)
}

impl SimView {
    /// Some user owes something in asset `a`.
    pub open spec fn asset_has_debt(self, a: int) -> bool {
        exists|u: int| 0 <= u < NUM_USERS && #[trigger] self.dbt(u, a) > 0
    }
}

impl SimulatedState {
    /// User `user`'s collateral in `asset`.
    pub fn collateral_of(&self, user: usize, asset: usize) -> (r: u128)
        requires
            self.wf(),
            user < NUM_USERS,
            asset < NUM_ASSETS,
        ensures
            r == self@.coll(user as int, asset as int),
    {
        self.collateral[user * NUM_ASSETS + asset]
    }

    /// User `user`'s underlying balance of `asset`.
    pub fn underlying_of(&self, user: usize, asset: usize) -> (r: u128)
        requires
            self.wf(),
            user < NUM_USERS,
            asset < NUM_ASSETS,
        ensures
            r == self@.und(user as int, asset as int),
    {
        self.underlying[user * NUM_ASSETS + asset]
    }

    /// Whether the simulated protocol is paused.
    pub fn is_paused(&self) -> (r: bool)
        ensures
            r == self@.paused,
    {
        self.paused
    }

    /// The user with the most underlying of `asset` (the last one on ties).
    pub fn best_user_for_supply(&self, asset: usize) -> (r: u8)
        requires
            self.wf(),
            asset < NUM_ASSETS,
        ensures
            last_argmax(|u: int| self@.und(u, asset as int) as int, NUM_USERS as int, r as int),
    {
        let ghost f = |u: int| self@.und(u, asset as int) as int;
        let mut best: usize = 0;
        let mut best_val = self.underlying[asset];
        let mut u: usize = 1;
        while u < NUM_USERS
            invariant
                self.wf(),
                asset < NUM_ASSETS,
                1 <= u <= NUM_USERS,
                f == (|u: int| self@.und(u, asset as int) as int),
                last_argmax(f, u as int, best as int),
                best_val == f(best as int),
            decreases NUM_USERS - u,
        {
            let v = self.underlying[u * NUM_ASSETS + asset];
            if v >= best_val {
                best = u;
                best_val = v;
            }
            u = u + 1;
        }
        best as u8
    }

    /// The first asset someone owes something in.
    pub fn first_asset_with_debt(&self) -> (r: Option<u8>)
        requires
            self.wf(),
        ensures
            r matches Some(a) ==> first_where(|a: int| self@.asset_has_debt(a), NUM_ASSETS as int, a as int),
            r is None ==> none_where(|a: int| self@.asset_has_debt(a), NUM_ASSETS as int),
    {
        let ghost p = |a: int| self@.asset_has_debt(a);
        let mut a: usize = 0;
        while a < NUM_ASSETS
            invariant
                self.wf(),
                a <= NUM_ASSETS,
                p == (|a: int| self@.asset_has_debt(a)),
                forall|b: int| 0 <= b < a ==> !#[trigger] p(b),
            decreases NUM_ASSETS - a,
        {
            let mut u: usize = 0;
            while u < NUM_USERS
                invariant
                    self.wf(),
                    a < NUM_ASSETS,
                    u <= NUM_USERS,
                    p == (|a: int| self@.asset_has_debt(a)),
                    forall|b: int| 0 <= b < a ==> !#[trigger] p(b),
                    forall|w: int| 0 <= w < u ==> #[trigger] self@.dbt(w, a as int) == 0,
                decreases NUM_USERS - u,
            {
                if self.debt[u * NUM_ASSETS + a] > 0 {
                    assert(self@.dbt(u as int, a as int) > 0);
                    assert(self@.asset_has_debt(a as int));
                    return Some(a as u8);
                }
                u = u + 1;
            }
            assert(!self@.asset_has_debt(a as int));
            a = a + 1;
        }
        None
    }

    /// The first user holding more than dust of `asset`.
    pub fn first_funded_user(&self, asset: usize) -> (r: Option<u8>)
        requires
            self.wf(),
            asset < NUM_ASSETS,
        ensures
            r matches Some(x) ==> first_where(
                |u: int| self@.und(u, asset as int) > DUST_THRESHOLD,
                NUM_USERS as int,
                x as int,
            ),
            r is None ==> none_where(
                |u: int| self@.und(u, asset as int) > DUST_THRESHOLD,
                NUM_USERS as int,
            ),
    {
        let ghost p = |u: int| self@.und(u, asset as int) > DUST_THRESHOLD;
        let mut u: usize = 0;
        while u < NUM_USERS
            invariant
                self.wf(),
                asset < NUM_ASSETS,
                u <= NUM_USERS,
                p == (|u: int| self@.und(u, asset as int) > DUST_THRESHOLD),
                forall|w: int| 0 <= w < u ==> !#[trigger] p(w),
            decreases NUM_USERS - u,
        {
            if self.underlying[u * NUM_ASSETS + asset] > DUST_THRESHOLD {
                assert(p(u as int));
                return Some(u as u8);
            }
            u = u + 1;
        }
        None
    }

    /// The first asset in which `user` holds more than dust as collateral.
    pub fn first_collateral_asset(&self, user: usize) -> (r: Option<u8>)
        requires
            self.wf(),
            user < NUM_USERS,
        ensures
            r matches Some(x) ==> first_where(
                |a: int| self@.coll(user as int, a) > DUST_THRESHOLD,
                NUM_ASSETS as int,
                x as int,
            ),
            r is None ==> none_where(
                |a: int| self@.coll(user as int, a) > DUST_THRESHOLD,
                NUM_ASSETS as int,
            ),
    {
        let ghost p = |a: int| self@.coll(user as int, a) > DUST_THRESHOLD;
        let mut a: usize = 0;
        while a < NUM_ASSETS
            invariant
                self.wf(),
                user < NUM_USERS,
                a <= NUM_ASSETS,
                p == (|a: int| self@.coll(user as int, a) > DUST_THRESHOLD),
                forall|b: int| 0 <= b < a ==> !#[trigger] p(b),
            decreases NUM_ASSETS - a,
        {
            if self.collateral[user * NUM_ASSETS + a] > DUST_THRESHOLD {
                assert(p(a as int));
                return Some(a as u8);
            }
            a = a + 1;
        }
        None
    }

    /// The first asset in which `user` owes something.
    pub fn first_debt_asset(&self, user: usize) -> (r: Option<u8>)
        requires
            self.wf(),
            user < NUM_USERS,
        ensures
            r matches Some(x) ==> first_where(|a: int| self@.dbt(user as int, a) > 0, NUM_ASSETS as int, x as int),
            r is None ==> none_where(|a: int| self@.dbt(user as int, a) > 0, NUM_ASSETS as int),
    {
        let ghost p = |a: int| self@.dbt(user as int, a) > 0;
        let mut a: usize = 0;
        while a < NUM_ASSETS
            invariant
                self.wf(),
                user < NUM_USERS,
                a <= NUM_ASSETS,
                p == (|a: int| self@.dbt(user as int, a) > 0),
                forall|b: int| 0 <= b < a ==> !#[trigger] p(b),
            decreases NUM_ASSETS - a,
        {
            if self.debt[user * NUM_ASSETS + a] > 0 {
                assert(p(a as int));
                return Some(a as u8);
            }
            a = a + 1;
        }
        None
    }
}

/// `percent`% of `x`, rounded down, but at least one unit.
pub open spec fn pct_at_least_one(x: u128, percent: u8) -> u128 {
    let a = x * percent / 100;
    if a < 1 {
        1
    } else {
        a as u128
    }
}

impl SimView {
    /// All tables have their expected sizes.
    pub open spec fn wf(self) -> bool {
        &&& self.underlying.len() == NUM_CELLS
        &&& self.collateral.len() == NUM_CELLS
        &&& self.debt.len() == NUM_CELLS
        &&& self.pool_liquidity.len() == NUM_ASSETS
    }

    pub open spec fn und(self, u: int, a: int) -> u128 {
        self.underlying[cell(u, a)]
    }

    pub open spec fn coll(self, u: int, a: int) -> u128 {
        self.collateral[cell(u, a)]
    }

    pub open spec fn dbt(self, u: int, a: int) -> u128 {
        self.debt[cell(u, a)]
    }

    pub open spec fn pool(self, a: int) -> u128 {
        self.pool_liquidity[a]
    }

    /// Sum of a user's collateral over all assets.
    pub open spec fn coll_sum(self, u: int) -> int {
        self.coll(u, 0) + self.coll(u, 1) + self.coll(u, 2) + self.coll(u, 3)
    }

    /// Sum of a user's debt over all assets.
    pub open spec fn debt_sum(self, u: int) -> int {
        self.dbt(u, 0) + self.dbt(u, 1) + self.dbt(u, 2) + self.dbt(u, 3)
    }

    /// Approximate health factor in basis points (10000 = 1.0): collateral
    /// weighted by 75% over debt, capped at 100000; `u128::MAX` without debt.
    pub open spec fn hf(self, u: int) -> int {
        if self.debt_sum(u) == 0 {
            u128::MAX as int
        } else {
            let r = self.coll_sum(u) * 7500 / self.debt_sum(u);
            if r <= 100_000 {
                r
            } else {
                100_000
            }
        }
    }

    /// Computing the user's health factor does not overflow.
    pub open spec fn hf_defined(self, u: int) -> bool {
        &&& self.debt_sum(u) <= u128::MAX
        &&& self.debt_sum(u) != 0 ==> self.coll_sum(u) * 7500 <= u128::MAX
    }

    /// The user holds more than dust as collateral in some asset.
    pub open spec fn has_coll(self, u: int) -> bool {
        exists|a: int| 0 <= a < NUM_ASSETS && self.coll(u, a) > DUST_THRESHOLD
    }

    /// The user owes something in some asset.
    pub open spec fn has_dbt(self, u: int) -> bool {
        exists|a: int| 0 <= a < NUM_ASSETS && self.dbt(u, a) > 0
    }

    /// No sum or product the queries compute overflows.
    pub open spec fn sums_fit(self) -> bool {
        forall|u: int|
            0 <= u < NUM_USERS ==> #[trigger] self.coll_sum(u) * 10000 <= u128::MAX
                && self.debt_sum(u) * 10000 <= u128::MAX
    }

    /// Tokens of asset `a` in the users' wallets.
    pub open spec fn wallets(self, a: int) -> int {
        self.und(0, a) + self.und(1, a) + self.und(2, a) + self.und(3, a) + self.und(4, a)
            + self.und(5, a) + self.und(6, a) + self.und(7, a)
    }

    /// Collateral of asset `a` deposited by all users.
    pub open spec fn collateral_total(self, a: int) -> int {
        self.coll(0, a) + self.coll(1, a) + self.coll(2, a) + self.coll(3, a) + self.coll(4, a)
            + self.coll(5, a) + self.coll(6, a) + self.coll(7, a)
    }

    /// Debt of asset `a` owed by all users.
    pub open spec fn debt_total(self, a: int) -> int {
        self.dbt(0, a) + self.dbt(1, a) + self.dbt(2, a) + self.dbt(3, a) + self.dbt(4, a)
            + self.dbt(5, a) + self.dbt(6, a) + self.dbt(7, a)
    }

    /// Tokens of asset `a` held in wallets and in the pool.
    pub open spec fn tokens(self, a: int) -> int {
        self.wallets(a) + self.pool(a)
    }

    /// How far the pool's liquidity of asset `a` is from the collateral
    /// deposited minus the debt lent out.
    pub open spec fn pool_gap(self, a: int) -> int {
        self.pool(a) + self.debt_total(a) - self.collateral_total(a)
    }

    /// No sum of asset `a`'s balances overflows: wallets, pool, collateral
    /// and debt together fit u128.
    pub open spec fn asset_fits(self, a: int) -> bool {
        self.wallets(a) + self.pool(a) + self.collateral_total(a) + self.debt_total(a) <= u128::MAX
    }

    /// Every asset's balances fit u128 together, so no step saturates.
    pub open spec fn accounts_fit(self) -> bool {
        forall|a: int| 0 <= a < NUM_ASSETS ==> #[trigger] self.asset_fits(a)
    }

    /// Both quantities that a step keeps are the same in `self` and `t`.
    pub open spec fn same_accounts(self, t: SimView) -> bool {
        forall|b: int|
            0 <= b < NUM_ASSETS ==> #[trigger] t.tokens(b) == self.tokens(b) && t.pool_gap(b)
                == self.pool_gap(b)
    }

    /// Set the (u, a) cell of the underlying table.
    pub open spec fn with_und(self, u: int, a: int, v: u128) -> SimView {
        SimView { underlying: self.underlying.update(cell(u, a), v), ..self }
    }

    pub open spec fn with_coll(self, u: int, a: int, v: u128) -> SimView {
        SimView { collateral: self.collateral.update(cell(u, a), v), ..self }
    }

    pub open spec fn with_dbt(self, u: int, a: int, v: u128) -> SimView {
        SimView { debt: self.debt.update(cell(u, a), v), ..self }
    }

    pub open spec fn with_pool(self, a: int, v: u128) -> SimView {
        SimView { pool_liquidity: self.pool_liquidity.update(a, v), ..self }
    }

    /// Move `amount` from user `u`'s wallet into the pool as collateral of `r`.
    pub open spec fn deposit(self, u: int, r: int, a: int, amount: u128) -> SimView {
        let s1 = self.with_und(u, a, sat_sub(self.und(u, a), amount));
        let s2 = s1.with_coll(r, a, sat_add(s1.coll(r, a), amount));
        s2.with_pool(a, sat_add(s2.pool(a), amount))
    }

    /// Move `amount` of user `u`'s collateral back to their wallet.
    pub open spec fn redeem(self, u: int, a: int, amount: u128) -> SimView {
        let s1 = self.with_coll(u, a, sat_sub(self.coll(u, a), amount));
        let s2 = s1.with_und(u, a, sat_add(s1.und(u, a), amount));
        s2.with_pool(a, sat_sub(s2.pool(a), amount))
    }

    /// User `u` borrows `amount`, paid out to `r`.
    pub open spec fn lend(self, u: int, r: int, a: int, amount: u128) -> SimView {
        let s1 = self.with_dbt(u, a, sat_add(self.dbt(u, a), amount));
        let s2 = s1.with_und(r, a, sat_add(s1.und(r, a), amount));
        s2.with_pool(a, sat_sub(s2.pool(a), amount))
    }

    /// User `u` repays `amount` from their wallet.
    pub open spec fn pay_back(self, u: int, a: int, amount: u128) -> SimView {
        let s1 = self.with_dbt(u, a, sat_sub(self.dbt(u, a), amount));
        let s2 = s1.with_und(u, a, sat_sub(s1.und(u, a), amount));
        s2.with_pool(a, sat_add(s2.pool(a), amount))
    }

    /// The largest amount user `u` may borrow of asset `a`: a quarter of their
    /// total collateral, bounded by the pool's liquidity.
    pub open spec fn max_borrow(self, u: int, a: int) -> u128 {
        min_u128(self.pool(a), (self.coll_sum(u) / 4) as u128)
    }

    /// The state after `op`; operations the simulation does not model leave
    /// it unchanged.
    pub open spec fn step(self, op: Operation) -> SimView {
        match op {
            Operation::Supply { user_idx, asset_idx, amount_percent } => {
                let (u, a) = ((user_idx % 8) as int, (asset_idx % 4) as int);
                let amount = pct_at_least_one(self.und(u, a), amount_percent);
                if amount <= self.und(u, a) {
                    self.deposit(u, u, a, amount)
                } else {
                    self
                }
            },
            Operation::SupplyOnBehalf { user_idx, recipient_idx, asset_idx, amount_percent } => {
                let (u, r, a) = (
                    (user_idx % 8) as int,
                    (recipient_idx % 8) as int,
                    (asset_idx % 4) as int,
                );
                let amount = pct_at_least_one(self.und(u, a), amount_percent);
                if amount <= self.und(u, a) {
                    self.deposit(u, r, a, amount)
                } else {
                    self
                }
            },
            Operation::Withdraw { user_idx, asset_idx, amount_percent } => {
                let (u, a) = ((user_idx % 8) as int, (asset_idx % 4) as int);
                let amount = pct_at_least_one(self.coll(u, a), amount_percent);
                if amount <= self.coll(u, a) && amount <= self.pool(a) {
                    self.redeem(u, a, amount)
                } else {
                    self
                }
            },
            Operation::WithdrawAll { user_idx, asset_idx } => {
                let (u, a) = ((user_idx % 8) as int, (asset_idx % 4) as int);
                self.redeem(u, a, min_u128(self.coll(u, a), self.pool(a)))
            },
            Operation::Borrow { user_idx, asset_idx, amount_percent } => {
                let (u, a) = ((user_idx % 8) as int, (asset_idx % 4) as int);
                let amount = pct_at_least_one(self.max_borrow(u, a), amount_percent);
                if amount <= self.pool(a) {
                    self.lend(u, u, a, amount)
                } else {
                    self
                }
            },
            Operation::BorrowToRecipient { user_idx, recipient_idx, asset_idx, amount_percent } => {
                let (u, r, a) = (
                    (user_idx % 8) as int,
                    (recipient_idx % 8) as int,
                    (asset_idx % 4) as int,
                );
                let amount = pct_at_least_one(self.max_borrow(u, a), amount_percent);
                if amount <= self.pool(a) {
                    self.lend(u, r, a, amount)
                } else {
                    self
                }
            },
            Operation::Repay { user_idx, asset_idx, amount_percent } => {
                let (u, a) = ((user_idx % 8) as int, (asset_idx % 4) as int);
                let amount = pct_at_least_one(
                    min_u128(self.dbt(u, a), self.und(u, a)),
                    amount_percent,
                );
                if amount <= self.und(u, a) && amount <= self.dbt(u, a) {
                    self.pay_back(u, a, amount)
                } else {
                    self
                }
            },
            Operation::RepayAll { user_idx, asset_idx } => {
                let (u, a) = ((user_idx % 8) as int, (asset_idx % 4) as int);
                self.pay_back(u, a, min_u128(self.dbt(u, a), self.und(u, a)))
            },
            Operation::PauseProtocol => SimView { paused: true, ..self },
            Operation::UnpauseProtocol => SimView { paused: false, ..self },
            Operation::DustSupply { user_idx, asset_idx, dust_amount } => {
                let (u, a) = ((user_idx % 8) as int, (asset_idx % 4) as int);
                if dust_amount as u128 <= self.und(u, a) {
                    self.deposit(u, u, a, dust_amount as u128)
                } else {
                    self
                }
            },
            Operation::MaxAmountSupply { user_idx, asset_idx } => {
                let (u, a) = ((user_idx % 8) as int, (asset_idx % 4) as int);
                self.deposit(u, u, a, self.und(u, a))
            },
            _ => self,
        }
    }

    /// The arithmetic that `step` performs on exact values does not overflow.
    pub open spec fn step_safe(self, op: Operation) -> bool {
        match op {
            Operation::Supply { user_idx, asset_idx, amount_percent } => self.und(
                (user_idx % 8) as int,
                (asset_idx % 4) as int,
            ) * amount_percent <= u128::MAX,
            Operation::SupplyOnBehalf { user_idx, asset_idx, amount_percent, .. } => self.und(
                (user_idx % 8) as int,
                (asset_idx % 4) as int,
            ) * amount_percent <= u128::MAX,
            Operation::Withdraw { user_idx, asset_idx, amount_percent } => self.coll(
                (user_idx % 8) as int,
                (asset_idx % 4) as int,
            ) * amount_percent <= u128::MAX,
            Operation::Borrow { user_idx, asset_idx, amount_percent } => self.coll_sum(
                (user_idx % 8) as int,
            ) <= u128::MAX && self.max_borrow((user_idx % 8) as int, (asset_idx % 4) as int)
                * amount_percent <= u128::MAX,
            Operation::BorrowToRecipient { user_idx, asset_idx, amount_percent, .. } =>
                self.coll_sum((user_idx % 8) as int) <= u128::MAX && self.max_borrow(
                (user_idx % 8) as int,
                (asset_idx % 4) as int,
            ) * amount_percent <= u128::MAX,
            Operation::Repay { user_idx, asset_idx, amount_percent } => min_u128(
                self.dbt((user_idx % 8) as int, (asset_idx % 4) as int),
                self.und((user_idx % 8) as int, (asset_idx % 4) as int),
            ) * amount_percent <= u128::MAX,
            _ => true,
        }
    }
}

impl SimView {
    /// Every table entry is at most `m`.
    pub open spec fn bounded(self, m: int) -> bool {
        &&& forall|i: int| 0 <= i < NUM_CELLS ==> #[trigger] self.underlying[i] <= m
        &&& forall|i: int| 0 <= i < NUM_CELLS ==> #[trigger] self.collateral[i] <= m
        &&& forall|i: int| 0 <= i < NUM_CELLS ==> #[trigger] self.debt[i] <= m
        &&& forall|a: int| 0 <= a < NUM_ASSETS ==> #[trigger] self.pool_liquidity[a] <= m
    }
}

proof fn lemma_cell_in_range(u: int, a: int)
    requires
        0 <= u < NUM_USERS,
        0 <= a < NUM_ASSETS,
    ensures
        0 <= cell(u, a) < NUM_CELLS,
{
}

proof fn lemma_deposit_bounded(s: SimView, u: int, r: int, a: int, amount: u128, m: int)
    requires
        s.wf(),
        s.bounded(m),
        0 <= u < NUM_USERS,
        0 <= r < NUM_USERS,
        0 <= a < NUM_ASSETS,
        amount <= m,
    ensures
        s.deposit(u, r, a, amount).wf(),
        s.deposit(u, r, a, amount).bounded(2 * m),
{
    lemma_cell_in_range(u, a);
    lemma_cell_in_range(r, a);
}

proof fn lemma_redeem_bounded(s: SimView, u: int, a: int, amount: u128, m: int)
    requires
        s.wf(),
        s.bounded(m),
        0 <= u < NUM_USERS,
        0 <= a < NUM_ASSETS,
        amount <= m,
    ensures
        s.redeem(u, a, amount).wf(),
        s.redeem(u, a, amount).bounded(2 * m),
{
    lemma_cell_in_range(u, a);
}

proof fn lemma_lend_bounded(s: SimView, u: int, r: int, a: int, amount: u128, m: int)
    requires
        s.wf(),
        s.bounded(m),
        0 <= u < NUM_USERS,
        0 <= r < NUM_USERS,
        0 <= a < NUM_ASSETS,
        amount <= m,
    ensures
        s.lend(u, r, a, amount).wf(),
        s.lend(u, r, a, amount).bounded(2 * m),
{
    lemma_cell_in_range(u, a);
    lemma_cell_in_range(r, a);
}

proof fn lemma_pay_back_bounded(s: SimView, u: int, a: int, amount: u128, m: int)
    requires
        s.wf(),
        s.bounded(m),
        0 <= u < NUM_USERS,
        0 <= a < NUM_ASSETS,
        amount <= m,
    ensures
        s.pay_back(u, a, amount).wf(),
        s.pay_back(u, a, amount).bounded(2 * m),
{
    lemma_cell_in_range(u, a);
}

/// A percentage (at most 255%) of a bounded amount fits u128.
proof fn lemma_percent_fits(x: int, percent: int, m: int)
    requires
        0 <= x <= m,
        0 <= percent <= 255,
        m * 1_000_000 <= u128::MAX,
    ensures
        x * percent <= u128::MAX,
{
    assert(x * percent <= m * 255) by (nonlinear_arith)
        requires
            0 <= x <= m,
            0 <= percent <= 255,
    ;
}

/// In a state whose entries are at most `m` (small enough), every query of
/// the generator is defined: sums and health factors do not overflow.
pub proof fn lemma_bounded_queries(s: SimView, m: int)
    requires
        s.wf(),
        s.bounded(m),
        0 <= m,
        m * 1_000_000 <= u128::MAX,
    ensures
        s.sums_fit(),
        forall|u: int| 0 <= u < NUM_USERS ==> #[trigger] s.hf_defined(u),
        forall|u: int| 0 <= u < NUM_USERS ==> #[trigger] s.coll_sum(u) <= u128::MAX,
        forall|u: int| 0 <= u < NUM_USERS ==> #[trigger] s.coll_sum(u) <= 4 * m,
        forall|u: int| 0 <= u < NUM_USERS ==> #[trigger] s.debt_sum(u) <= 4 * m,
{
    assert forall|u: int| 0 <= u < NUM_USERS implies #[trigger] s.coll_sum(u) <= 4 * m && s.debt_sum(u)
        <= 4 * m by {
        lemma_cell_in_range(u, 0);
        lemma_cell_in_range(u, 1);
        lemma_cell_in_range(u, 2);
        lemma_cell_in_range(u, 3);
    }
    assert forall|u: int| 0 <= u < NUM_USERS implies #[trigger] s.hf_defined(u) by {
        assert(s.coll_sum(u) <= 4 * m && s.debt_sum(u) <= 4 * m);
        assert(s.coll_sum(u) >= 0);
    }
}

/// One simulated step at most doubles the largest table entry, and the
/// step's arithmetic fits when the entries are small enough.
pub proof fn lemma_step_bounded(s: SimView, op: Operation, m: int)
    requires
        s.wf(),
        s.bounded(m),
        0 <= m,
        m * 1_000_000 <= u128::MAX,
    ensures
        s.step_safe(op),
        s.step(op).wf(),
        s.step(op).bounded(2 * m),
{
    lemma_bounded_queries(s, m);
    assert(s.bounded(2 * m));
    match op {
        Operation::Supply { user_idx, asset_idx, amount_percent } => {
            let (u, a) = ((user_idx % 8) as int, (asset_idx % 4) as int);
            lemma_cell_in_range(u, a);
            lemma_percent_fits(s.und(u, a) as int, amount_percent as int, m);
            let amount = pct_at_least_one(s.und(u, a), amount_percent);
            if amount <= s.und(u, a) {
                lemma_deposit_bounded(s, u, u, a, amount, m);
            }
        },
        Operation::SupplyOnBehalf { user_idx, recipient_idx, asset_idx, amount_percent } => {
            let (u, r, a) = ((user_idx % 8) as int, (recipient_idx % 8) as int, (asset_idx % 4) as int);
            lemma_cell_in_range(u, a);
            lemma_percent_fits(s.und(u, a) as int, amount_percent as int, m);
            let amount = pct_at_least_one(s.und(u, a), amount_percent);
            if amount <= s.und(u, a) {
                lemma_deposit_bounded(s, u, r, a, amount, m);
            }
        },
        Operation::Withdraw { user_idx, asset_idx, amount_percent } => {
            let (u, a) = ((user_idx % 8) as int, (asset_idx % 4) as int);
            lemma_cell_in_range(u, a);
            lemma_percent_fits(s.coll(u, a) as int, amount_percent as int, m);
            let amount = pct_at_least_one(s.coll(u, a), amount_percent);
            if amount <= s.coll(u, a) && amount <= s.pool(a) {
                lemma_redeem_bounded(s, u, a, amount, m);
            }
        },
        Operation::WithdrawAll { user_idx, asset_idx } => {
            let (u, a) = ((user_idx % 8) as int, (asset_idx % 4) as int);
            lemma_cell_in_range(u, a);
            lemma_redeem_bounded(s, u, a, min_u128(s.coll(u, a), s.pool(a)), m);
        },
        Operation::Borrow { user_idx, asset_idx, amount_percent } => {
            let (u, a) = ((user_idx % 8) as int, (asset_idx % 4) as int);
            lemma_cell_in_range(u, a);
            lemma_percent_fits(s.max_borrow(u, a) as int, amount_percent as int, m);
            let amount = pct_at_least_one(s.max_borrow(u, a), amount_percent);
            if amount <= s.pool(a) {
                lemma_lend_bounded(s, u, u, a, amount, m);
            }
        },
        Operation::BorrowToRecipient { user_idx, recipient_idx, asset_idx, amount_percent } => {
            let (u, r, a) = ((user_idx % 8) as int, (recipient_idx % 8) as int, (asset_idx % 4) as int);
            lemma_cell_in_range(u, a);
            lemma_percent_fits(s.max_borrow(u, a) as int, amount_percent as int, m);
            let amount = pct_at_least_one(s.max_borrow(u, a), amount_percent);
            if amount <= s.pool(a) {
                lemma_lend_bounded(s, u, r, a, amount, m);
            }
        },
        Operation::Repay { user_idx, asset_idx, amount_percent } => {
            let (u, a) = ((user_idx % 8) as int, (asset_idx % 4) as int);
            lemma_cell_in_range(u, a);
            let x = min_u128(s.dbt(u, a), s.und(u, a));
            lemma_percent_fits(x as int, amount_percent as int, m);
            let amount = pct_at_least_one(x, amount_percent);
            if amount <= s.und(u, a) && amount <= s.dbt(u, a) {
                lemma_pay_back_bounded(s, u, a, amount, m);
            }
        },
        Operation::RepayAll { user_idx, asset_idx } => {
            let (u, a) = ((user_idx % 8) as int, (asset_idx % 4) as int);
            lemma_cell_in_range(u, a);
            lemma_pay_back_bounded(s, u, a, min_u128(s.dbt(u, a), s.und(u, a)), m);
        },
        Operation::DustSupply { user_idx, asset_idx, dust_amount } => {
            let (u, a) = ((user_idx % 8) as int, (asset_idx % 4) as int);
            lemma_cell_in_range(u, a);
            if dust_amount as u128 <= s.und(u, a) {
                lemma_deposit_bounded(s, u, u, a, dust_amount as u128, m);
            }
        },
        Operation::MaxAmountSupply { user_idx, asset_idx } => {
            let (u, a) = ((user_idx % 8) as int, (asset_idx % 4) as int);
            lemma_cell_in_range(u, a);
            lemma_deposit_bounded(s, u, u, a, s.und(u, a), m);
        },
        _ => {},
    }
}

proof fn lemma_deposit_conserves(s: SimView, u: int, r: int, a: int, amount: u128)
    requires
        s.wf(),
        0 <= u < NUM_USERS,
        0 <= r < NUM_USERS,
        0 <= a < NUM_ASSETS,
        amount <= s.und(u, a),
        s.coll(r, a) + amount <= u128::MAX,
        s.pool(a) + amount <= u128::MAX,
    ensures
        s.same_accounts(s.deposit(u, r, a, amount)),
{
    lemma_cell_in_range(u, a);
    lemma_cell_in_range(r, a);
    let t = s.deposit(u, r, a, amount);
    assert forall|b: int| 0 <= b < NUM_ASSETS implies #[trigger] t.tokens(b) == s.tokens(b)
        && t.pool_gap(b) == s.pool_gap(b) by {
        assert(t.underlying == s.underlying.update(cell(u, a), (s.und(u, a) - amount) as u128));
        assert(t.collateral == s.collateral.update(cell(r, a), (s.coll(r, a) + amount) as u128));
        assert(t.debt == s.debt);
    }
}

proof fn lemma_redeem_conserves(s: SimView, u: int, a: int, amount: u128)
    requires
        s.wf(),
        0 <= u < NUM_USERS,
        0 <= a < NUM_ASSETS,
        amount <= s.coll(u, a),
        amount <= s.pool(a),
        s.und(u, a) + amount <= u128::MAX,
    ensures
        s.same_accounts(s.redeem(u, a, amount)),
{
    lemma_cell_in_range(u, a);
    let t = s.redeem(u, a, amount);
    assert forall|b: int| 0 <= b < NUM_ASSETS implies #[trigger] t.tokens(b) == s.tokens(b)
        && t.pool_gap(b) == s.pool_gap(b) by {
        assert(t.underlying == s.underlying.update(cell(u, a), (s.und(u, a) + amount) as u128));
        assert(t.collateral == s.collateral.update(cell(u, a), (s.coll(u, a) - amount) as u128));
        assert(t.debt == s.debt);
    }
}

proof fn lemma_lend_conserves(s: SimView, u: int, r: int, a: int, amount: u128)
    requires
        s.wf(),
        0 <= u < NUM_USERS,
        0 <= r < NUM_USERS,
        0 <= a < NUM_ASSETS,
        amount <= s.pool(a),
        s.dbt(u, a) + amount <= u128::MAX,
        s.und(r, a) + amount <= u128::MAX,
    ensures
        s.same_accounts(s.lend(u, r, a, amount)),
{
    lemma_cell_in_range(u, a);
    lemma_cell_in_range(r, a);
    let t = s.lend(u, r, a, amount);
    assert forall|b: int| 0 <= b < NUM_ASSETS implies #[trigger] t.tokens(b) == s.tokens(b)
        && t.pool_gap(b) == s.pool_gap(b) by {
        assert(t.underlying == s.underlying.update(cell(r, a), (s.und(r, a) + amount) as u128));
        assert(t.debt == s.debt.update(cell(u, a), (s.dbt(u, a) + amount) as u128));
        assert(t.collateral == s.collateral);
    }
}

proof fn lemma_pay_back_conserves(s: SimView, u: int, a: int, amount: u128)
    requires
        s.wf(),
        0 <= u < NUM_USERS,
        0 <= a < NUM_ASSETS,
        amount <= s.dbt(u, a),
        amount <= s.und(u, a),
        s.pool(a) + amount <= u128::MAX,
    ensures
        s.same_accounts(s.pay_back(u, a, amount)),
{
    lemma_cell_in_range(u, a);
    let t = s.pay_back(u, a, amount);
    assert forall|b: int| 0 <= b < NUM_ASSETS implies #[trigger] t.tokens(b) == s.tokens(b)
        && t.pool_gap(b) == s.pool_gap(b) by {
        assert(t.underlying == s.underlying.update(cell(u, a), (s.und(u, a) - amount) as u128));
        assert(t.debt == s.debt.update(cell(u, a), (s.dbt(u, a) - amount) as u128));
        assert(t.collateral == s.collateral);
    }
}

/// Where a simulated balance operation moves tokens, for states whose
/// balances fit together (users and assets by index modulo 8 and 4): a
/// supply takes from the supplier's wallet exactly what it credits as
/// collateral, to the recipient of a supply on behalf (whose wallet, like
/// the supplier's collateral, is untouched); a borrow adds to the
/// borrower's debt exactly what it pays into the wallet of the recipient (or
/// of the borrower); a repayment lowers the debt by exactly what leaves the
/// wallet; a withdrawal returns to the wallet exactly the collateral it
/// takes.  Amounts moved are never negative.
pub proof fn lemma_step_moves(s: SimView, op: Operation)
    requires
        s.wf(),
        s.accounts_fit(),
    ensures
        op matches Operation::Supply { user_idx, asset_idx, .. } ==> ({
            let (u, a, t) = ((user_idx % 8) as int, (asset_idx % 4) as int, s.step(op));
            &&& t.coll(u, a) - s.coll(u, a) == s.und(u, a) - t.und(u, a)
            &&& t.und(u, a) <= s.und(u, a)
            &&& t.pool(a) - s.pool(a) == s.und(u, a) - t.und(u, a)
        }),
        op matches Operation::SupplyOnBehalf { user_idx, recipient_idx, asset_idx, .. } ==> ({
            let (u, r, a, t) = ((user_idx % 8) as int, (recipient_idx % 8) as int, (asset_idx % 4) as int, s.step(op));
            &&& t.coll(r, a) - s.coll(r, a) == s.und(u, a) - t.und(u, a)
            &&& t.und(u, a) <= s.und(u, a)
            &&& u != r ==> t.coll(u, a) == s.coll(u, a) && t.und(r, a) == s.und(r, a)
        }),
        op matches Operation::Borrow { user_idx, asset_idx, .. } ==> ({
            let (u, a, t) = ((user_idx % 8) as int, (asset_idx % 4) as int, s.step(op));
            &&& t.dbt(u, a) - s.dbt(u, a) == t.und(u, a) - s.und(u, a)
            &&& t.dbt(u, a) >= s.dbt(u, a)
        }),
        op matches Operation::BorrowToRecipient { user_idx, recipient_idx, asset_idx, .. } ==> ({
            let (u, r, a, t) = ((user_idx % 8) as int, (recipient_idx % 8) as int, (asset_idx % 4) as int, s.step(op));
            &&& t.dbt(u, a) - s.dbt(u, a) == t.und(r, a) - s.und(r, a)
            &&& t.dbt(u, a) >= s.dbt(u, a)
            &&& u != r ==> t.und(u, a) == s.und(u, a) && t.dbt(r, a) == s.dbt(r, a)
        }),
        op matches Operation::Repay { user_idx, asset_idx, .. } ==> ({
            let (u, a, t) = ((user_idx % 8) as int, (asset_idx % 4) as int, s.step(op));
            &&& s.dbt(u, a) - t.dbt(u, a) == s.und(u, a) - t.und(u, a)
            &&& t.dbt(u, a) <= s.dbt(u, a)
        }),
        op matches Operation::Withdraw { user_idx, asset_idx, .. } ==> ({
            let (u, a, t) = ((user_idx % 8) as int, (asset_idx % 4) as int, s.step(op));
            &&& s.coll(u, a) - t.coll(u, a) == t.und(u, a) - s.und(u, a)
            &&& t.coll(u, a) <= s.coll(u, a)
        }),
{
    assert forall|u: int, a: int|
        #![trigger s.und(u, a)]
        #![trigger s.coll(u, a)]
        #![trigger s.dbt(u, a)]
        0 <= u < NUM_USERS && 0 <= a < NUM_ASSETS implies {
        &&& s.und(u, a) <= s.wallets(a)
        &&& s.coll(u, a) <= s.collateral_total(a)
        &&& s.dbt(u, a) <= s.debt_total(a)
        &&& s.asset_fits(a)
    } by {
        lemma_cell_in_range(u, a);
    }
    match op {
        Operation::Supply { user_idx, asset_idx, .. } | Operation::SupplyOnBehalf { user_idx, asset_idx, .. } => {
            let r = match op {
                Operation::SupplyOnBehalf { recipient_idx, .. } => (recipient_idx % 8) as int,
                _ => (user_idx % 8) as int,
            };
            let (u, a) = ((user_idx % 8) as int, (asset_idx % 4) as int);
            lemma_cell_in_range(u, a);
            lemma_cell_in_range(r, a);
            assert(cell(u, a) == cell(r, a) ==> u == r);
        },
        Operation::Borrow { user_idx, asset_idx, .. } | Operation::BorrowToRecipient { user_idx, asset_idx, .. } => {
            let r = match op {
                Operation::BorrowToRecipient { recipient_idx, .. } => (recipient_idx % 8) as int,
                _ => (user_idx % 8) as int,
            };
            let (u, a) = ((user_idx % 8) as int, (asset_idx % 4) as int);
            lemma_cell_in_range(u, a);
            lemma_cell_in_range(r, a);
            assert(cell(u, a) == cell(r, a) ==> u == r);
        },
        Operation::Repay { user_idx, asset_idx, .. } | Operation::Withdraw { user_idx, asset_idx, .. } => {
            let (u, a) = ((user_idx % 8) as int, (asset_idx % 4) as int);
            lemma_cell_in_range(u, a);
        },
        _ => {},
    }
}

/// Every simulated step that does not saturate moves tokens without creating
/// or destroying any: for each asset, the tokens in wallets plus those in the
/// pool stay the same, and so does the pool's liquidity minus the collateral
/// deposited plus the debt lent out (so a pool that matched its deposits and
/// loans keeps matching).  A step saturates only when some asset's balances
/// together exceed u128, which `accounts_fit` rules out.
pub proof fn lemma_step_conserves(s: SimView, op: Operation)
    requires
        s.wf(),
        s.accounts_fit(),
    ensures
        s.same_accounts(s.step(op)),
{
    assert forall|u: int, a: int|
        #![trigger s.und(u, a)]
        #![trigger s.coll(u, a)]
        #![trigger s.dbt(u, a)]
        0 <= u < NUM_USERS && 0 <= a < NUM_ASSETS implies {
        &&& s.und(u, a) <= s.wallets(a)
        &&& s.coll(u, a) <= s.collateral_total(a)
        &&& s.dbt(u, a) <= s.debt_total(a)
        &&& s.asset_fits(a)
    } by {
        lemma_cell_in_range(u, a);
    }
    match op {
        Operation::Supply { user_idx, asset_idx, amount_percent } => {
            let (u, a) = ((user_idx % 8) as int, (asset_idx % 4) as int);
            lemma_cell_in_range(u, a);
            let amount = pct_at_least_one(s.und(u, a), amount_percent);
            if amount <= s.und(u, a) {
                lemma_deposit_conserves(s, u, u, a, amount);
            }
        },
        Operation::SupplyOnBehalf { user_idx, recipient_idx, asset_idx, amount_percent } => {
            let (u, r, a) = ((user_idx % 8) as int, (recipient_idx % 8) as int, (asset_idx % 4) as int);
            lemma_cell_in_range(u, a);
            lemma_cell_in_range(r, a);
            let amount = pct_at_least_one(s.und(u, a), amount_percent);
            if amount <= s.und(u, a) {
                lemma_deposit_conserves(s, u, r, a, amount);
            }
        },
        Operation::Withdraw { user_idx, asset_idx, amount_percent } => {
            let (u, a) = ((user_idx % 8) as int, (asset_idx % 4) as int);
            lemma_cell_in_range(u, a);
            let amount = pct_at_least_one(s.coll(u, a), amount_percent);
            if amount <= s.coll(u, a) && amount <= s.pool(a) {
                lemma_redeem_conserves(s, u, a, amount);
            }
        },
        Operation::WithdrawAll { user_idx, asset_idx } => {
            let (u, a) = ((user_idx % 8) as int, (asset_idx % 4) as int);
            lemma_cell_in_range(u, a);
            lemma_redeem_conserves(s, u, a, min_u128(s.coll(u, a), s.pool(a)));
        },
        Operation::Borrow { user_idx, asset_idx, amount_percent } => {
            let (u, a) = ((user_idx % 8) as int, (asset_idx % 4) as int);
            lemma_cell_in_range(u, a);
            let amount = pct_at_least_one(s.max_borrow(u, a), amount_percent);
            if amount <= s.pool(a) {
                lemma_lend_conserves(s, u, u, a, amount);
            }
        },
        Operation::BorrowToRecipient { user_idx, recipient_idx, asset_idx, amount_percent } => {
            let (u, r, a) = ((user_idx % 8) as int, (recipient_idx % 8) as int, (asset_idx % 4) as int);
            lemma_cell_in_range(u, a);
            lemma_cell_in_range(r, a);
            let amount = pct_at_least_one(s.max_borrow(u, a), amount_percent);
            if amount <= s.pool(a) {
                lemma_lend_conserves(s, u, r, a, amount);
            }
        },
        Operation::Repay { user_idx, asset_idx, amount_percent } => {
            let (u, a) = ((user_idx % 8) as int, (asset_idx % 4) as int);
            lemma_cell_in_range(u, a);
            let amount = pct_at_least_one(min_u128(s.dbt(u, a), s.und(u, a)), amount_percent);
            if amount <= s.und(u, a) && amount <= s.dbt(u, a) {
                lemma_pay_back_conserves(s, u, a, amount);
            }
        },
        Operation::RepayAll { user_idx, asset_idx } => {
            let (u, a) = ((user_idx % 8) as int, (asset_idx % 4) as int);
            lemma_cell_in_range(u, a);
            lemma_pay_back_conserves(s, u, a, min_u128(s.dbt(u, a), s.und(u, a)));
        },
        Operation::DustSupply { user_idx, asset_idx, dust_amount } => {
            let (u, a) = ((user_idx % 8) as int, (asset_idx % 4) as int);
            lemma_cell_in_range(u, a);
            if dust_amount as u128 <= s.und(u, a) {
                lemma_deposit_conserves(s, u, u, a, dust_amount as u128);
            }
        },
        Operation::MaxAmountSupply { user_idx, asset_idx } => {
            let (u, a) = ((user_idx % 8) as int, (asset_idx % 4) as int);
            lemma_cell_in_range(u, a);
            lemma_deposit_conserves(s, u, u, a, s.und(u, a));
        },
        _ => {},
    }
}

impl SimulatedState {
    /// The tables have their expected sizes.
    pub open spec fn wf(&self) -> bool {
        self@.wf()
    }

    /// Every user holds `INITIAL_BALANCE` of every asset; nothing is
    /// supplied, borrowed or paused.
    pub fn default() -> (s: Self)
        ensures
            s.wf(),
            forall|i: int| 0 <= i < NUM_CELLS ==> s@.underlying[i] == INITIAL_BALANCE as u128,
            forall|i: int| 0 <= i < NUM_CELLS ==> s@.collateral[i] == 0,
            forall|i: int| 0 <= i < NUM_CELLS ==> s@.debt[i] == 0,
            forall|a: int| 0 <= a < NUM_ASSETS ==> s@.pool_liquidity[a] == 0,
            !s@.paused,
            s@.accounts_fit(),
            forall|a: int|
                0 <= a < NUM_ASSETS ==> #[trigger] s@.tokens(a) == 8 * INITIAL_BALANCE && s@.pool_gap(
                    a,
                ) == 0,
    {
        let s = SimulatedState {
            underlying: vec![INITIAL_BALANCE as u128; NUM_CELLS],
            collateral: vec![0u128; NUM_CELLS],
            debt: vec![0u128; NUM_CELLS],
            pool_liquidity: vec![0u128; NUM_ASSETS],
            paused: false,
        };
        proof {
            assert forall|a: int| 0 <= a < NUM_ASSETS implies #[trigger] s@.tokens(a) == 8
                * INITIAL_BALANCE && s@.pool_gap(a) == 0 && s@.asset_fits(a) by {
                lemma_cell_in_range(0, a);
                lemma_cell_in_range(1, a);
                lemma_cell_in_range(2, a);
                lemma_cell_in_range(3, a);
                lemma_cell_in_range(4, a);
                lemma_cell_in_range(5, a);
                lemma_cell_in_range(6, a);
                lemma_cell_in_range(7, a);
            }
        }
        s
    }

    /// Sum of a user's collateral over all assets.
    pub fn total_collateral_value(&self, user: usize) -> (r: u128)
        requires
            self.wf(),
            user < NUM_USERS,
            self@.coll_sum(user as int) <= u128::MAX,
        ensures
            r == self@.coll_sum(user as int),
    {
        let b = user * NUM_ASSETS;
        self.collateral[b] + self.collateral[b + 1] + self.collateral[b + 2] + self.collateral[b
            + 3]
    }

    /// Sum of a user's debt over all assets.
    pub fn total_debt(&self, user: usize) -> (r: u128)
        requires
            self.wf(),
            user < NUM_USERS,
            self@.debt_sum(user as int) <= u128::MAX,
        ensures
            r == self@.debt_sum(user as int),
    {
        let b = user * NUM_ASSETS;
        self.debt[b] + self.debt[b + 1] + self.debt[b + 2] + self.debt[b + 3]
    }

    /// Approximate health factor (collateral / debt ratio) in basis points.
    pub fn health_factor(&self, user: usize) -> (r: u128)
        requires
            self.wf(),
            user < NUM_USERS,
            self@.hf_defined(user as int),
        ensures
            r == self@.hf(user as int),
    {
        let debt = self.total_debt(user);
        if debt == 0 {
            return u128::MAX;
        }
        let collateral = self.total_collateral_value(user);
        let r = collateral * 7500 / debt;
        if r <= 100_000 {
            r
        } else {
            100_000
        }
    }

    /// Whether withdrawing `amount` keeps the user's weighted collateral above
    /// their debt.
    pub fn can_safely_withdraw(&self, user: usize, asset: usize, amount: u128) -> (r: bool)
        requires
            self.wf(),
            user < NUM_USERS,
            self@.debt_sum(user as int) * 10000 <= u128::MAX,
            self@.coll_sum(user as int) * 7500 <= u128::MAX,
        ensures
            r == (self@.debt_sum(user as int) == 0 || sat_sub(
                self@.coll_sum(user as int) as u128,
                amount,
            ) * 7500 > self@.debt_sum(user as int) * 10000),
    {
        let debt = self.total_debt(user);
        if debt == 0 {
            return true;
        }
        let remaining_collateral = self.total_collateral_value(user).saturating_sub(amount);
        remaining_collateral * 7500 > debt * 10000
    }

    /// The user holds more than dust as collateral in some asset.
    pub fn has_collateral(&self, user: usize) -> (r: bool)
        requires
            self.wf(),
            user < NUM_USERS,
        ensures
            r == self@.has_coll(user as int),
    {
        let b = user * NUM_ASSETS;
        let r = self.collateral[b] > DUST_THRESHOLD || self.collateral[b + 1] > DUST_THRESHOLD
            || self.collateral[b + 2] > DUST_THRESHOLD || self.collateral[b + 3]
            > DUST_THRESHOLD;
        proof {
            if r {
                if self@.coll(user as int, 0) > DUST_THRESHOLD {
                } else if self@.coll(user as int, 1) > DUST_THRESHOLD {
                } else if self@.coll(user as int, 2) > DUST_THRESHOLD {
                } else {
                    assert(self@.coll(user as int, 3) > DUST_THRESHOLD);
                }
            }
        }
        r
    }

    /// The user owes something in some asset.
    pub fn has_debt(&self, user: usize) -> (r: bool)
        requires
            self.wf(),
            user < NUM_USERS,
        ensures
            r == self@.has_dbt(user as int),
    {
        let b = user * NUM_ASSETS;
        let r = self.debt[b] > 0 || self.debt[b + 1] > 0 || self.debt[b + 2] > 0 || self.debt[b
            + 3] > 0;
        proof {
            if r {
                if self@.dbt(user as int, 0) > 0 {
                } else if self@.dbt(user as int, 1) > 0 {
                } else if self@.dbt(user as int, 2) > 0 {
                } else {
                    assert(self@.dbt(user as int, 3) > 0);
                }
            }
        }
        r
    }

    /// Some user holds more than dust as collateral.
    pub fn any_collateral(&self) -> (r: bool)
        requires
            self.wf(),
        ensures
            r == exists|u: int| 0 <= u < NUM_USERS && self@.has_coll(u),
    {
        let mut u: usize = 0;
        while u < NUM_USERS
            invariant
                self.wf(),
                u <= NUM_USERS,
                forall|w: int| 0 <= w < u ==> !self@.has_coll(w),
            decreases NUM_USERS - u,
        {
            if self.has_collateral(u) {
                return true;
            }
            u = u + 1;
        }
        false
    }

    /// Some user owes something.
    pub fn any_debt(&self) -> (r: bool)
        requires
            self.wf(),
        ensures
            r == exists|u: int| 0 <= u < NUM_USERS && self@.has_dbt(u),
    {
        let mut u: usize = 0;
        while u < NUM_USERS
            invariant
                self.wf(),
                u <= NUM_USERS,
                forall|w: int| 0 <= w < u ==> !self@.has_dbt(w),
            decreases NUM_USERS - u,
        {
            if self.has_debt(u) {
                return true;
            }
            u = u + 1;
        }
        false
    }

    fn deposit(&mut self, u: usize, r: usize, a: usize, amount: u128)
        requires
            old(self).wf(),
            u < NUM_USERS,
            r < NUM_USERS,
            a < NUM_ASSETS,
        ensures
            final(self).wf(),
            final(self)@ == old(self)@.deposit(u as int, r as int, a as int, amount),
    {
        let i = u * NUM_ASSETS + a;
        let v = self.underlying[i].saturating_sub(amount);
        self.underlying.set(i, v);
        let j = r * NUM_ASSETS + a;
        let c = self.collateral[j].saturating_add(amount);
        self.collateral.set(j, c);
        let p = self.pool_liquidity[a].saturating_add(amount);
        self.pool_liquidity.set(a, p);
    }

    fn redeem(&mut self, u: usize, a: usize, amount: u128)
        requires
            old(self).wf(),
            u < NUM_USERS,
            a < NUM_ASSETS,
        ensures
            final(self).wf(),
            final(self)@ == old(self)@.redeem(u as int, a as int, amount),
    {
        let i = u * NUM_ASSETS + a;
        let c = self.collateral[i].saturating_sub(amount);
        self.collateral.set(i, c);
        let v = self.underlying[i].saturating_add(amount);
        self.underlying.set(i, v);
        let p = self.pool_liquidity[a].saturating_sub(amount);
        self.pool_liquidity.set(a, p);
    }

    fn lend(&mut self, u: usize, r: usize, a: usize, amount: u128)
        requires
            old(self).wf(),
            u < NUM_USERS,
            r < NUM_USERS,
            a < NUM_ASSETS,
        ensures
            final(self).wf(),
            final(self)@ == old(self)@.lend(u as int, r as int, a as int, amount),
    {
        let i = u * NUM_ASSETS + a;
        let d = self.debt[i].saturating_add(amount);
        self.debt.set(i, d);
        let j = r * NUM_ASSETS + a;
        let v = self.underlying[j].saturating_add(amount);
        self.underlying.set(j, v);
        let p = self.pool_liquidity[a].saturating_sub(amount);
        self.pool_liquidity.set(a, p);
    }

    fn pay_back(&mut self, u: usize, a: usize, amount: u128)
        requires
            old(self).wf(),
            u < NUM_USERS,
            a < NUM_ASSETS,
        ensures
            final(self).wf(),
            final(self)@ == old(self)@.pay_back(u as int, a as int, amount),
    {
        let i = u * NUM_ASSETS + a;
        let d = self.debt[i].saturating_sub(amount);
        self.debt.set(i, d);
        let v = self.underlying[i].saturating_sub(amount);
        self.underlying.set(i, v);
        let p = self.pool_liquidity[a].saturating_add(amount);
        self.pool_liquidity.set(a, p);
    }

    /// Applies `op` to the simulated state.
    pub fn update(&mut self, op: &Operation)
        requires
            old(self).wf(),
            old(self)@.step_safe(*op),
        ensures
            final(self).wf(),
            final(self)@ == old(self)@.step(*op),
    {
        match op {
            Operation::Supply { user_idx, asset_idx, amount_percent } => {
                let u = (*user_idx as usize) % NUM_USERS;
                let a = (*asset_idx as usize) % NUM_ASSETS;
                let x = self.underlying[u * NUM_ASSETS + a];
                let amount = percent_at_least_one(x, *amount_percent);
                if amount <= x {
                    self.deposit(u, u, a, amount);
                }
            },
            Operation::SupplyOnBehalf { user_idx, recipient_idx, asset_idx, amount_percent } => {
                let u = (*user_idx as usize) % NUM_USERS;
                let r = (*recipient_idx as usize) % NUM_USERS;
                let a = (*asset_idx as usize) % NUM_ASSETS;
                let x = self.underlying[u * NUM_ASSETS + a];
                let amount = percent_at_least_one(x, *amount_percent);
                if amount <= x {
                    self.deposit(u, r, a, amount);
                }
            },
            Operation::Withdraw { user_idx, asset_idx, amount_percent } => {
                let u = (*user_idx as usize) % NUM_USERS;
                let a = (*asset_idx as usize) % NUM_ASSETS;
                let x = self.collateral[u * NUM_ASSETS + a];
                let amount = percent_at_least_one(x, *amount_percent);
                if amount <= x && amount <= self.pool_liquidity[a] {
                    self.redeem(u, a, amount);
                }
            },
            Operation::WithdrawAll { user_idx, asset_idx } => {
                let u = (*user_idx as usize) % NUM_USERS;
                let a = (*asset_idx as usize) % NUM_ASSETS;
                let x = self.collateral[u * NUM_ASSETS + a];
                let p = self.pool_liquidity[a];
                let amount = if x <= p {
                    x
                } else {
                    p
                };
                self.redeem(u, a, amount);
            },
            Operation::Borrow { user_idx, asset_idx, amount_percent } => {
                let u = (*user_idx as usize) % NUM_USERS;
                let a = (*asset_idx as usize) % NUM_ASSETS;
                let p = self.pool_liquidity[a];
                let quarter = self.total_collateral_value(u) / 4;
                let max_borrow = if p <= quarter {
                    p
                } else {
                    quarter
                };
                let amount = percent_at_least_one(max_borrow, *amount_percent);
                if amount <= p {
                    self.lend(u, u, a, amount);
                }
            },
            Operation::BorrowToRecipient { user_idx, recipient_idx, asset_idx, amount_percent } => {
                let u = (*user_idx as usize) % NUM_USERS;
                let r = (*recipient_idx as usize) % NUM_USERS;
                let a = (*asset_idx as usize) % NUM_ASSETS;
                let p = self.pool_liquidity[a];
                let quarter = self.total_collateral_value(u) / 4;
                let max_borrow = if p <= quarter {
                    p
                } else {
                    quarter
                };
                let amount = percent_at_least_one(max_borrow, *amount_percent);
                if amount <= p {
                    self.lend(u, r, a, amount);
                }
            },
            Operation::Repay { user_idx, asset_idx, amount_percent } => {
                let u = (*user_idx as usize) % NUM_USERS;
                let a = (*asset_idx as usize) % NUM_ASSETS;
                let d = self.debt[u * NUM_ASSETS + a];
                let x = self.underlying[u * NUM_ASSETS + a];
                let max_repay = if d <= x {
                    d
                } else {
                    x
                };
                let amount = percent_at_least_one(max_repay, *amount_percent);
                if amount <= x && amount <= d {
                    self.pay_back(u, a, amount);
                }
            },
            Operation::RepayAll { user_idx, asset_idx } => {
                let u = (*user_idx as usize) % NUM_USERS;
                let a = (*asset_idx as usize) % NUM_ASSETS;
                let d = self.debt[u * NUM_ASSETS + a];
                let x = self.underlying[u * NUM_ASSETS + a];
                let amount = if d <= x {
                    d
                } else {
                    x
                };
                self.pay_back(u, a, amount);
            },
            Operation::PauseProtocol => {
                self.paused = true;
            },
            Operation::UnpauseProtocol => {
                self.paused = false;
            },
            Operation::DustSupply { user_idx, asset_idx, dust_amount } => {
                let u = (*user_idx as usize) % NUM_USERS;
                let a = (*asset_idx as usize) % NUM_ASSETS;
                let amount = *dust_amount as u128;
                if amount <= self.underlying[u * NUM_ASSETS + a] {
                    self.deposit(u, u, a, amount);
                }
            },
            Operation::MaxAmountSupply { user_idx, asset_idx } => {
                let u = (*user_idx as usize) % NUM_USERS;
                let a = (*asset_idx as usize) % NUM_ASSETS;
                let amount = self.underlying[u * NUM_ASSETS + a];
                self.deposit(u, u, a, amount);
            },
            _ => {},
        }
    }
}

/// `r` is the last position in `0..n` where `f` takes its largest value.
pub open spec fn last_argmax(f: spec_fn(int) -> int, n: int, r: int) -> bool {
    &&& 0 <= r < n
    &&& forall|i: int| 0 <= i < n ==> #[trigger] f(i) <= f(r)
    &&& forall|i: int| r < i < n ==> #[trigger] f(i) < f(r)
}

/// `r` is the first position in `0..n` satisfying `p` where `f` takes its
/// smallest value among those positions.
pub open spec fn first_argmin_where(
    p: spec_fn(int) -> bool,
    f: spec_fn(int) -> int,
    n: int,
    r: int,
) -> bool {
    &&& 0 <= r < n
    &&& p(r)
    &&& forall|i: int| 0 <= i < n && #[trigger] p(i) ==> f(r) <= f(i)
    &&& forall|i: int| 0 <= i < r && #[trigger] p(i) ==> f(r) < f(i)
}

impl SimulatedState {
    /// The user with the most collateral in `asset` (the last one on ties).
    pub fn best_user_for_withdraw(&self, asset: usize) -> (r: u8)
        requires
            self.wf(),
            asset < NUM_ASSETS,
        ensures
            last_argmax(|u: int| self@.coll(u, asset as int) as int, NUM_USERS as int, r as int),
    {
        let ghost f = |u: int| self@.coll(u, asset as int) as int;
        let mut best: usize = 0;
        let mut best_val = self.collateral[asset];
        let mut u: usize = 1;
        while u < NUM_USERS
            invariant
                self.wf(),
                asset < NUM_ASSETS,
                1 <= u <= NUM_USERS,
                f == (|u: int| self@.coll(u, asset as int) as int),
                last_argmax(f, u as int, best as int),
                best_val == f(best as int),
            decreases NUM_USERS - u,
        {
            let v = self.collateral[u * NUM_ASSETS + asset];
            if v >= best_val {
                best = u;
                best_val = v;
            }
            u = u + 1;
        }
        best as u8
    }

    /// The user with the most debt in `asset` (the last one on ties).
    pub fn best_user_for_repay(&self, asset: usize) -> (r: u8)
        requires
            self.wf(),
            asset < NUM_ASSETS,
        ensures
            last_argmax(|u: int| self@.dbt(u, asset as int) as int, NUM_USERS as int, r as int),
    {
        let ghost f = |u: int| self@.dbt(u, asset as int) as int;
        let mut best: usize = 0;
        let mut best_val = self.debt[asset];
        let mut u: usize = 1;
        while u < NUM_USERS
            invariant
                self.wf(),
                asset < NUM_ASSETS,
                1 <= u <= NUM_USERS,
                f == (|u: int| self@.dbt(u, asset as int) as int),
                last_argmax(f, u as int, best as int),
                best_val == f(best as int),
            decreases NUM_USERS - u,
        {
            let v = self.debt[u * NUM_ASSETS + asset];
            if v >= best_val {
                best = u;
                best_val = v;
            }
            u = u + 1;
        }
        best as u8
    }

    /// The user with the most collateral overall (the last one on ties).
    pub fn best_user_for_borrow(&self) -> (r: u8)
        requires
            self.wf(),
            forall|u: int| 0 <= u < NUM_USERS ==> #[trigger] self@.coll_sum(u) <= u128::MAX,
        ensures
            last_argmax(|u: int| self@.coll_sum(u), NUM_USERS as int, r as int),
    {
        let ghost f = |u: int| self@.coll_sum(u);
        let mut best: usize = 0;
        let mut best_val = self.total_collateral_value(0);
        let mut u: usize = 1;
        while u < NUM_USERS
            invariant
                self.wf(),
                forall|u: int| 0 <= u < NUM_USERS ==> #[trigger] self@.coll_sum(u) <= u128::MAX,
                1 <= u <= NUM_USERS,
                f == (|u: int| self@.coll_sum(u)),
                last_argmax(f, u as int, best as int),
                best_val == f(best as int),
            decreases NUM_USERS - u,
        {
            let v = self.total_collateral_value(u);
            if v >= best_val {
                best = u;
                best_val = v;
            }
            u = u + 1;
        }
        best as u8
    }

    /// The asset with the most pool liquidity (the last one on ties).
    pub fn best_asset_for_flashloan(&self) -> (r: u8)
        requires
            self.wf(),
        ensures
            last_argmax(|a: int| self@.pool(a) as int, NUM_ASSETS as int, r as int),
    {
        let ghost f = |a: int| self@.pool(a) as int;
        let mut best: usize = 0;
        let mut best_val = self.pool_liquidity[0];
        let mut a: usize = 1;
        while a < NUM_ASSETS
            invariant
                self.wf(),
                1 <= a <= NUM_ASSETS,
                f == (|a: int| self@.pool(a) as int),
                last_argmax(f, a as int, best as int),
                best_val == f(best as int),
            decreases NUM_ASSETS - a,
        {
            let v = self.pool_liquidity[a];
            if v >= best_val {
                best = a;
                best_val = v;
            }
            a = a + 1;
        }
        best as u8
    }

    /// The pool holds more than dust of `asset`.
    pub fn has_liquidity(&self, asset: usize) -> (r: bool)
        requires
            self.wf(),
            asset < NUM_ASSETS,
        ensures
            r == (self@.pool(asset as int) > DUST_THRESHOLD),
    {
        self.pool_liquidity[asset] > DUST_THRESHOLD
    }

    /// Among users with both debt and collateral, the one with the lowest
    /// health factor (the first one on ties); `None` if there is none.
    pub fn best_user_for_liquidation(&self) -> (r: Option<u8>)
        requires
            self.wf(),
            forall|u: int| 0 <= u < NUM_USERS ==> #[trigger] self@.hf_defined(u),
        ensures
            r is None <==> forall|u: int|
                0 <= u < NUM_USERS ==> !(self@.has_dbt(u) && self@.has_coll(u)),
            r matches Some(x) ==> first_argmin_where(
                |u: int| self@.has_dbt(u) && self@.has_coll(u),
                |u: int| self@.hf(u),
                NUM_USERS as int,
                x as int,
            ),
    {
        let ghost p = |u: int| self@.has_dbt(u) && self@.has_coll(u);
        let ghost f = |u: int| self@.hf(u);
        let mut best: Option<usize> = None;
        let mut best_val: u128 = 0;
        let mut u: usize = 0;
        while u < NUM_USERS
            invariant
                self.wf(),
                forall|u: int| 0 <= u < NUM_USERS ==> #[trigger] self@.hf_defined(u),
                u <= NUM_USERS,
                p == (|u: int| self@.has_dbt(u) && self@.has_coll(u)),
                f == (|u: int| self@.hf(u)),
                best is None <==> forall|w: int| 0 <= w < u ==> !#[trigger] p(w),
                best matches Some(b) ==> first_argmin_where(p, f, u as int, b as int) && best_val
                    == f(b as int),
            decreases NUM_USERS - u,
        {
            let eligible = self.has_debt(u) && self.has_collateral(u);
            assert(eligible == p(u as int));
            if eligible {
                let h = self.health_factor(u);
                assert(h == f(u as int));
                match best {
                    None => {
                        best = Some(u);
                        best_val = h;
                    },
                    Some(_) => {
                        if h < best_val {
                            best = Some(u);
                            best_val = h;
                        }
                    },
                }
            }
            u = u + 1;
        }
        assert forall|w: int| 0 <= w < NUM_USERS && best is None implies !(self@.has_dbt(w)
            && self@.has_coll(w)) by {
            assert(!p(w));
        }
        match best {
            None => None,
            Some(b) => Some(b as u8),
        }
    }

    /// Some user's health factor lies strictly between 0 and 1.5.
    pub fn has_low_health_user(&self) -> (r: bool)
        requires
            self.wf(),
            forall|u: int| 0 <= u < NUM_USERS ==> #[trigger] self@.hf_defined(u),
        ensures
            r == exists|u: int| 0 <= u < NUM_USERS && 0 < #[trigger] self@.hf(u) < 15000,
    {
        let mut u: usize = 0;
        while u < NUM_USERS
            invariant
                self.wf(),
                forall|u: int| 0 <= u < NUM_USERS ==> #[trigger] self@.hf_defined(u),
                u <= NUM_USERS,
                forall|w: int| 0 <= w < u ==> !(0 < #[trigger] self@.hf(w) < 15000),
            decreases NUM_USERS - u,
        {
            let hf = self.health_factor(u);
            if hf < 15000 && hf > 0 {
                return true;
            }
            u = u + 1;
        }
        false
    }
}

/// `percent`% of `x`, rounded down, but at least one unit.
pub fn percent_at_least_one(x: u128, percent: u8) -> (r: u128)
    requires
        x * percent <= u128::MAX,
    ensures
        r == pct_at_least_one(x, percent),
{
    let a = x * (percent as u128) / 100;
    if a < 1 {
        1
    } else {
        a
    }
}

} // verus!
