//! Shared invariant checks for K2 fuzz testing.
//!
//! Reusable invariant checks that several fuzz targets share.  They follow the
//! protocol's safety requirements (authorization, accounting, economic,
//! flash-loan and two-step admin transfer rules).  Each check returns `true`
//! exactly when the invariant holds.
use vstd::prelude::*;

verus! {

/// RAY constant (1e9 in K2)
pub const RAY: u128 = 1_000_000_000;

/// WAD constant (1e18 for health factor calculations)
pub const WAD: u128 = 1_000_000_000_000_000_000;

/// Maximum valid basis points (100%)
pub const MAX_BPS: u128 = 10_000;

/// String equality by contents.
pub fn str_eq(a: &str, b: &str) -> (r: bool)
    ensures
        r == (a@ == b@),
{
    let sa = a.to_owned();
    let sb = b.to_owned();
    sa == sb
}

// =============================================================================
// Authorization Invariants
// =============================================================================

/// Tracks authorization test results.
#[derive(Debug)]
pub struct AuthInvariantTracker {
    /// Count of operations where unauthorized callers succeeded
    pub unauthorized_successes: u32,
    /// Count of expected failures (auth correctly rejected)
    pub authorized_rejections: u32,
    /// Names of operations that had auth bypasses
    pub bypass_operations: Vec<String>,
}

/// The contents of a list of names.
pub open spec fn names_view(names: Seq<String>) -> Seq<Seq<char>> {
    names.map_values(|s: String| s@)
}

impl AuthInvariantTracker {
    /// A tracker with no recorded results.
    pub fn new() -> (t: Self)
        ensures
            t.unauthorized_successes == 0,
            t.authorized_rejections == 0,
            t.bypass_operations@.len() == 0,
    {
        AuthInvariantTracker {
            unauthorized_successes: 0,
            authorized_rejections: 0,
            bypass_operations: Vec::new(),
        }
    }

    /// Record a successful authorization check (unauthorized caller was rejected).
    pub fn record_rejection(&mut self)
        requires
            old(self).authorized_rejections < u32::MAX,
        ensures
            final(self).authorized_rejections == old(self).authorized_rejections + 1,
            final(self).unauthorized_successes == old(self).unauthorized_successes,
            final(self).bypass_operations@ == old(self).bypass_operations@,
    {
        self.authorized_rejections = self.authorized_rejections + 1;
    }

    /// Record an authorization bypass (an unauthorized caller succeeded).
    pub fn record_bypass(&mut self, operation: &str)
        requires
            old(self).unauthorized_successes < u32::MAX,
        ensures
            final(self).unauthorized_successes == old(self).unauthorized_successes + 1,
            final(self).authorized_rejections == old(self).authorized_rejections,
            names_view(final(self).bypass_operations@) == names_view(
                old(self).bypass_operations@,
            ).push(operation@),
    {
        self.unauthorized_successes = self.unauthorized_successes + 1;
        let name = operation.to_owned();
        self.bypass_operations.push(name);
        proof {
            assert(names_view(self.bypass_operations@) =~= names_view(
                old(self).bypass_operations@,
            ).push(operation@));
        }
    }

    /// Whether no authorization bypass was recorded.
    pub fn assert_no_bypasses(&self) -> (ok: bool)
        ensures
            ok == (self.unauthorized_successes == 0),
    {
        self.unauthorized_successes == 0
    }
}

/// The operations that require pool-admin authorization.
pub open spec fn admin_operation_names() -> Set<Seq<char>> {
    set![
        "set_flash_loan_premium"@,
        "set_flash_loan_premium_max"@,
        "set_treasury"@,
        "set_dex_router"@,
        "set_dex_factory"@,
        "set_pool_configurator"@,
        "set_hf_liquidation_threshold"@,
        "set_min_swap_output_bps"@,
        "set_incentives_contract"@,
        "set_flash_liquidation_helper"@,
        "set_reserve_whitelist"@,
        "set_reserve_blacklist"@,
        "set_liquidation_whitelist"@,
        "set_liquidation_blacklist"@,
        "collect_protocol_reserves"@,
        "unpause"@,
        "propose_admin"@,
        "cancel_admin_proposal"@
    ]
}

/// Determines if an operation should require admin authorization.
pub fn requires_admin_auth(operation: &str) -> (r: bool)
    ensures
        r == admin_operation_names().contains(operation@),
{
    str_eq(operation, "set_flash_loan_premium") || str_eq(operation, "set_flash_loan_premium_max")
        || str_eq(operation, "set_treasury") || str_eq(operation, "set_dex_router") || str_eq(
        operation,
        "set_dex_factory",
    ) || str_eq(operation, "set_pool_configurator") || str_eq(
        operation,
        "set_hf_liquidation_threshold",
    ) || str_eq(operation, "set_min_swap_output_bps") || str_eq(
        operation,
        "set_incentives_contract",
    ) || str_eq(operation, "set_flash_liquidation_helper") || str_eq(
        operation,
        "set_reserve_whitelist",
    ) || str_eq(operation, "set_reserve_blacklist") || str_eq(
        operation,
        "set_liquidation_whitelist",
    ) || str_eq(operation, "set_liquidation_blacklist") || str_eq(
        operation,
        "collect_protocol_reserves",
    ) || str_eq(operation, "unpause") || str_eq(operation, "propose_admin") || str_eq(
        operation,
        "cancel_admin_proposal",
    )
}

/// Determines if an operation requires emergency admin authorization.
pub fn requires_emergency_admin_auth(operation: &str) -> (r: bool)
    ensures
        r == (operation@ == "pause"@),
{
    str_eq(operation, "pause")
}

// =============================================================================
// Accounting Invariants
// =============================================================================

/// Tracks accounting state for invariant checks.
#[derive(Clone, Copy, Debug)]
pub struct AccountingSnapshot {
    /// Total aToken supply
    pub atoken_supply: u128,
    /// Total underlying asset balance in aToken contract
    pub atoken_underlying_balance: u128,
    /// Total debt token supply
    pub debt_supply: u128,
    /// Protocol treasury balance
    pub treasury_balance: u128,
    /// Current liquidity index
    pub liquidity_index: u128,
    /// Current variable borrow index
    pub variable_borrow_index: u128,
    /// Timestamp of snapshot
    pub timestamp: u64,
}

impl AccountingSnapshot {
    /// Whether both indices are at least RAY.
    pub fn assert_basic_invariants(&self) -> (ok: bool)
        ensures
            ok == (self.liquidity_index >= RAY && self.variable_borrow_index >= RAY),
            self.liquidity_index < RAY ==> !ok,
            self.variable_borrow_index < RAY ==> !ok,
    {
        self.liquidity_index >= RAY && self.variable_borrow_index >= RAY
    }

    /// Whether neither index decreased since `previous`.
    pub fn assert_monotonic_indices(&self, previous: &AccountingSnapshot) -> (ok: bool)
        ensures
            ok == (self.liquidity_index >= previous.liquidity_index
                && self.variable_borrow_index >= previous.variable_borrow_index),
            self.liquidity_index == previous.liquidity_index && self.variable_borrow_index
                == previous.variable_borrow_index ==> ok,
            self.liquidity_index < previous.liquidity_index ==> !ok,
            self.variable_borrow_index < previous.variable_borrow_index ==> !ok,
    {
        self.liquidity_index >= previous.liquidity_index && self.variable_borrow_index
            >= previous.variable_borrow_index
    }
}

/// Absolute difference of two amounts.
pub open spec fn abs_diff(a: int, b: int) -> int {
    if a > b {
        a - b
    } else {
        b - a
    }
}

/// Token conservation for supply: the aTokens minted are within one unit of
/// `underlying_deposited * RAY / liquidity_index`.
pub fn assert_supply_conservation(
    underlying_deposited: u128,
    atoken_minted: u128,
    liquidity_index: u128,
) -> (ok: bool)
    requires
        liquidity_index > 0,
        underlying_deposited * RAY <= u128::MAX,
    ensures
        ok == (abs_diff(
            atoken_minted as int,
            (underlying_deposited * RAY) / (liquidity_index as int),
        ) <= 1),
        atoken_minted == (underlying_deposited * RAY) / (liquidity_index as int) ==> ok,
        atoken_minted >= (underlying_deposited * RAY) / (liquidity_index as int) + 2 ==> !ok,
        atoken_minted + 2 <= (underlying_deposited * RAY) / (liquidity_index as int) ==> !ok,
{
    let expected_atoken = (underlying_deposited * RAY) / liquidity_index;
    let diff = if atoken_minted > expected_atoken {
        atoken_minted - expected_atoken
    } else {
        expected_atoken - atoken_minted
    };
    diff <= 1
}

/// Token conservation for withdraw: the underlying withdrawn is within one unit
/// of `atoken_burned * liquidity_index / RAY`.
pub fn assert_withdraw_conservation(
    atoken_burned: u128,
    underlying_withdrawn: u128,
    liquidity_index: u128,
) -> (ok: bool)
    requires
        atoken_burned * liquidity_index <= u128::MAX,
    ensures
        ok == (abs_diff(
            underlying_withdrawn as int,
            (atoken_burned * liquidity_index) / (RAY as int),
        ) <= 1),
        underlying_withdrawn == (atoken_burned * liquidity_index) / (RAY as int) ==> ok,
        underlying_withdrawn >= (atoken_burned * liquidity_index) / (RAY as int) + 2 ==> !ok,
        underlying_withdrawn + 2 <= (atoken_burned * liquidity_index) / (RAY as int) ==> !ok,
{
    let expected_underlying = (atoken_burned * liquidity_index) / RAY;
    let diff = if underlying_withdrawn > expected_underlying {
        underlying_withdrawn - expected_underlying
    } else {
        expected_underlying - underlying_withdrawn
    };
    diff <= 1
}

// =============================================================================
// Economic Invariants
// =============================================================================

/// Health factor invariants: a position marked liquidatable has a health
/// factor below one WAD.  (A position without debt is accepted whatever its
/// health factor.)
pub fn assert_health_factor_invariants(
    health_factor: u128,
    has_debt: bool,
    is_liquidatable: bool,
) -> (ok: bool)
    ensures
        ok == (is_liquidatable ==> health_factor < WAD),
        !is_liquidatable ==> ok,
        is_liquidatable && health_factor >= WAD ==> !ok,
{
    let mut ok = true;
    if !has_debt {
        ok = ok && (health_factor >= WAD || !has_debt);
    }
    if is_liquidatable {
        ok = ok && health_factor < WAD;
    }
    ok
}

/// Supply rate is at most `borrow_rate * (1 - reserve_factor)` plus one unit.
pub fn assert_interest_rate_invariants(
    supply_rate: u128,
    borrow_rate: u128,
    reserve_factor_bps: u128,
) -> (ok: bool)
    requires
        borrow_rate > 0 ==> reserve_factor_bps <= MAX_BPS,
        borrow_rate > 0 ==> borrow_rate * (MAX_BPS - reserve_factor_bps) <= u128::MAX,
    ensures
        ok == (borrow_rate > 0 ==> supply_rate <= borrow_rate * (MAX_BPS - reserve_factor_bps)
            / (MAX_BPS as int) + 1),
        borrow_rate == 0 ==> ok,
        supply_rate <= 1 ==> ok,
        borrow_rate > 0 && supply_rate > borrow_rate + 1 ==> !ok,
{
    if borrow_rate > 0 {
        let expected_max_supply = borrow_rate * (MAX_BPS - reserve_factor_bps) / MAX_BPS;
        proof {
            let f = (MAX_BPS - reserve_factor_bps) as int;
            let br = borrow_rate as int;
            assert(br * f / 10000 <= br) by (nonlinear_arith)
                requires
                    0 <= f <= 10000,
                    br >= 0,
            ;
        }
        supply_rate <= expected_max_supply + 1
    } else {
        true
    }
}

/// Value of the collateral seized is at most `debt_value * (1 + bonus)` plus
/// one unit of collateral.
pub fn assert_liquidation_bonus_invariants(
    liquidation_bonus_bps: u128,
    collateral_seized: u128,
    debt_covered: u128,
    collateral_price: u128,
    debt_price: u128,
) -> (ok: bool)
    requires
        debt_covered > 0 && collateral_price > 0 && debt_price > 0 ==> {
            &&& debt_covered * debt_price <= u128::MAX
            &&& MAX_BPS + liquidation_bonus_bps <= u128::MAX
            &&& debt_covered * debt_price * (MAX_BPS + liquidation_bonus_bps) <= u128::MAX
            &&& collateral_seized * collateral_price <= u128::MAX
            &&& debt_covered * debt_price * (MAX_BPS + liquidation_bonus_bps) / (MAX_BPS as int)
                + collateral_price <= u128::MAX
        },
    ensures
        ok == (debt_covered > 0 && collateral_price > 0 && debt_price > 0
            ==> collateral_seized * collateral_price <= debt_covered * debt_price * (MAX_BPS
            + liquidation_bonus_bps) / (MAX_BPS as int) + collateral_price),
{
    if debt_covered > 0 && collateral_price > 0 && debt_price > 0 {
        let debt_value = debt_covered * debt_price;
        proof {
            assert(debt_value * (MAX_BPS + liquidation_bonus_bps) <= u128::MAX);
        }
        let max_collateral_value = debt_value * (MAX_BPS + liquidation_bonus_bps) / MAX_BPS;
        let actual_collateral_value = collateral_seized * collateral_price;
        actual_collateral_value <= max_collateral_value + collateral_price
    } else {
        true
    }
}

// =============================================================================
// Flash Loan Invariants
// =============================================================================

/// The amount a flash loan must repay: principal plus premium.
pub open spec fn flash_loan_expected_repayment(borrowed_amount: int, premium_bps: int) -> int {
    borrowed_amount + borrowed_amount * premium_bps / (MAX_BPS as int)
}

/// A successful flash loan repaid at least principal plus premium.
pub fn assert_flash_loan_repayment(
    borrowed_amount: u128,
    premium_bps: u128,
    repaid_amount: u128,
    succeeded: bool,
) -> (ok: bool)
    requires
        borrowed_amount * premium_bps <= u128::MAX,
        flash_loan_expected_repayment(borrowed_amount as int, premium_bps as int) <= u128::MAX,
    ensures
        ok == (succeeded ==> repaid_amount >= flash_loan_expected_repayment(
            borrowed_amount as int,
            premium_bps as int,
        )),
        !succeeded ==> ok,
        succeeded && repaid_amount < borrowed_amount ==> !ok,
        repaid_amount >= borrowed_amount + borrowed_amount * premium_bps / (MAX_BPS as int) ==> ok,
{
    let expected_repayment = borrowed_amount + (borrowed_amount * premium_bps / MAX_BPS);
    if succeeded {
        repaid_amount >= expected_repayment
    } else {
        true
    }
}

// =============================================================================
// Two-Step Admin Transfer Invariants
// =============================================================================

/// Track admin transfer state.
#[derive(Clone, Debug)]
pub struct AdminTransferState {
    pub current_admin: Option<String>,
    pub proposed_admin: Option<String>,
    pub proposal_timestamp: Option<u64>,
}

impl AdminTransferState {
    /// State with `admin` as the current admin and no pending proposal.
    pub fn new(admin: &str) -> (s: Self)
        ensures
            s.current_admin is Some,
            s.current_admin->0@ == admin@,
            s.proposed_admin is None,
            s.proposal_timestamp is None,
    {
        AdminTransferState {
            current_admin: Some(admin.to_owned()),
            proposed_admin: None,
            proposal_timestamp: None,
        }
    }

    /// Admin transfer follows the two-step process: a successful proposal names
    /// a new admin, and a successful accept follows a proposal.
    pub fn assert_two_step_invariants(
        &self,
        new_admin: Option<&str>,
        operation: &str,
        succeeded: bool,
    ) -> (ok: bool)
        ensures
            ok == ((operation@ == "propose_admin"@ && succeeded ==> new_admin is Some) && (
            operation@ == "accept_admin"@ && succeeded ==> self.proposed_admin is Some)),
    {
        proof {
            reveal_strlit("propose_admin");
            reveal_strlit("accept_admin");
            assert("propose_admin"@[0] != "accept_admin"@[0]);
        }
        if str_eq(operation, "propose_admin") {
            if succeeded {
                new_admin.is_some()
            } else {
                true
            }
        } else if str_eq(operation, "accept_admin") {
            if succeeded {
                self.proposed_admin.is_some()
            } else {
                true
            }
        } else {
            true
        }
    }
}

} // verus!
