//! Authorization-boundaries target: which actor may perform which operation,
//! the arguments each operation sends, and the tally of calls that succeeded
//! for an unauthorized caller (there must be none).
use vstd::prelude::*;

pub use crate::targets::views::{MockReflector, PriceData};

verus! {

/// RAY constant
pub const RAY: u128 = 1_000_000_000;
/// Base price with 14 decimals
pub const BASE_PRICE: u128 = 1_000_000_000_000_000;
/// 10,000 tokens with 7 decimals
pub const INITIAL_SUPPLY: u128 = 100_000_000_000;
/// Longest single time advance, about one year in seconds
pub const MAX_ADVANCE_SECONDS: u64 = 31_536_000;

/// Flash-loan receiver that repays what it owes; used to test that
/// `execute_operation` cannot be called by just anyone.
#[derive(Clone, Copy, Debug)]
pub struct MockFlashLoanReceiver;

/// Actor types in the system
#[derive(Clone, Copy, Debug, PartialEq, Eq, Structural)]
pub enum ActorType {
    /// The legitimate pool admin
    PoolAdmin,
    /// The emergency admin
    EmergencyAdmin,
    /// A random unauthorized user
    RandomUser,
    /// The pool configurator contract
    PoolConfigurator,
    /// A user who has supplied to the pool
    Supplier,
    /// A user who has borrowed from the pool
    Borrower,
}

/// Operations that require admin authorization
#[derive(Clone, Copy, Debug, PartialEq, Eq, Structural)]
pub enum AdminOperation {
    /// Set flash loan premium (admin only)
    SetFlashLoanPremium { premium_bps: u16 },
    /// Set flash loan premium max (admin only)
    SetFlashLoanPremiumMax { max_bps: u16 },
    /// Set treasury address (admin only)
    SetTreasury,
    /// Set DEX router (admin only)
    SetDexRouter,
    /// Set DEX factory (admin only)
    SetDexFactory,
    /// Set pool configurator (admin only)
    SetPoolConfigurator,
    /// Set health factor liquidation threshold (admin only)
    SetHfLiquidationThreshold { threshold: u64 },
    /// Set min swap output bps (admin only)
    SetMinSwapOutputBps { bps: u16 },
    /// Set incentives contract (admin only)
    SetIncentivesContract,
    /// Set flash liquidation helper (admin only)
    SetFlashLiquidationHelper,
    /// Set reserve whitelist (admin only)
    SetReserveWhitelist { size: u8 },
    /// Set reserve blacklist (admin only)
    SetReserveBlacklist { size: u8 },
    /// Set liquidation whitelist (admin only)
    SetLiquidationWhitelist { size: u8 },
    /// Set liquidation blacklist (admin only)
    SetLiquidationBlacklist { size: u8 },
    /// Collect protocol reserves (admin only)
    CollectProtocolReserves,
    /// Pause protocol (emergency admin only)
    Pause,
    /// Unpause protocol (pool admin only)
    Unpause,
    /// Propose new admin (current admin only)
    ProposeAdmin,
    /// Accept admin role (proposed admin only)
    AcceptAdmin,
    /// Cancel admin proposal (current admin only)
    CancelAdminProposal,
}

/// Operations that require user authorization
#[derive(Clone, Copy, Debug, PartialEq, Eq, Structural)]
pub enum UserOperation {
    /// Supply assets (caller must be the supplier OR have delegation)
    Supply { amount: u64 },
    /// Borrow assets (caller must be the borrower)
    Borrow { amount: u64 },
    /// Repay debt (anyone can repay for anyone - intentional)
    Repay { amount: u64 },
    /// Withdraw assets (caller must be the owner OR have delegation)
    Withdraw { amount: u64 },
    /// Supply on behalf of another user (requires both auths)
    SupplyOnBehalf { amount: u64 },
    /// Borrow on behalf of another user (requires both auths)
    BorrowOnBehalf { amount: u64 },
    /// Withdraw on behalf of another user (requires both auths)
    WithdrawOnBehalf { amount: u64 },
    /// Set collateral enabled (caller only)
    SetCollateralEnabled { enabled: bool },
    /// Initiate flash loan (initiator must auth)
    FlashLoan { amount: u64 },
}

/// Main fuzz operation combining actor and operation
#[derive(Clone, Copy, Debug, PartialEq, Eq, Structural)]
pub enum AuthTestOperation {
    /// Admin operation attempted by an actor
    AdminOp { caller: ActorType, operation: AdminOperation },
    /// User operation attempted by an actor
    UserOp { caller: ActorType, target_user: ActorType, operation: UserOperation },
    /// Advance time (for testing expiry)
    AdvanceTime { seconds: u32 },
}

/// Main fuzz input
#[derive(Clone, Copy, Debug)]
pub struct AuthFuzzInput {
    /// Initial setup: should we supply tokens first?
    pub setup_supplier: bool,
    /// Initial setup: should we create a borrow position?
    pub setup_borrower: bool,
    /// Sequence of operations to test
    pub operations: [Option<AuthTestOperation>; 12],
}

/// Whether an actor holds the pool-admin role.
pub fn is_admin(actor: ActorType) -> (r: bool)
    ensures
        r == (actor == ActorType::PoolAdmin),
{
    match actor {
        ActorType::PoolAdmin => true,
        _ => false,
    }
}

/// Whether an actor holds the emergency-admin role.
pub fn is_emergency_admin(actor: ActorType) -> (r: bool)
    ensures
        r == (actor == ActorType::EmergencyAdmin),
{
    match actor {
        ActorType::EmergencyAdmin => true,
        _ => false,
    }
}

/// `x` clamped into `lo..=hi` (lower bound applied first).
pub open spec fn clamp(x: int, lo: int, hi: int) -> int {
    if x < lo {
        lo
    } else if x > hi {
        hi
    } else {
        x
    }
}

/// The numeric argument an admin operation sends, where it has one.
pub open spec fn admin_argument_of(op: AdminOperation) -> Option<u128> {
    match op {
        AdminOperation::SetFlashLoanPremium { premium_bps } => Some(
            (if premium_bps <= 10000 {
                premium_bps as int
            } else {
                10000
            }) as u128,
        ),
        AdminOperation::SetFlashLoanPremiumMax { max_bps } => Some(max_bps as u128),
        AdminOperation::SetHfLiquidationThreshold { threshold } => Some(
            (threshold * 1_000_000_000_000_000_000 / 100) as u128,
        ),
        AdminOperation::SetMinSwapOutputBps { bps } => Some(
            (if bps <= 10000 {
                bps as int
            } else {
                10000
            }) as u128,
        ),
        AdminOperation::SetReserveWhitelist { size } => Some((size % 5) as u128),
        AdminOperation::SetReserveBlacklist { size } => Some((size % 5) as u128),
        AdminOperation::SetLiquidationWhitelist { size } => Some((size % 5) as u128),
        AdminOperation::SetLiquidationBlacklist { size } => Some((size % 5) as u128),
        _ => None,
    }
}

/// The numeric argument an admin operation sends: a premium capped at
/// 10,000 bps, a premium maximum capped at 100,000 bps (which a `u16` never
/// exceeds), a threshold in hundredths scaled to WAD, a swap minimum capped
/// at 10,000 bps, or a list size below five.  `None` for operations with no
/// such argument.
pub fn admin_argument(op: &AdminOperation) -> (r: Option<u128>)
    ensures
        r == admin_argument_of(*op),
{
    match op {
        AdminOperation::SetFlashLoanPremium { premium_bps } => {
            let p = *premium_bps as u128;
            Some(if p <= 10000 { p } else { 10000 })
        },
        AdminOperation::SetFlashLoanPremiumMax { max_bps } => {
            let m = *max_bps as u128;
            Some(if m <= 100000 { m } else { 100000 })
        },
        AdminOperation::SetHfLiquidationThreshold { threshold } => {
            assert(*threshold * 1_000_000_000_000_000_000 <= u128::MAX) by (nonlinear_arith)
                requires
                    *threshold <= u64::MAX,
            ;
            Some((*threshold as u128) * 1_000_000_000_000_000_000 / 100)
        },
        AdminOperation::SetMinSwapOutputBps { bps } => {
            let b = *bps as u128;
            Some(if b <= 10000 { b } else { 10000 })
        },
        AdminOperation::SetReserveWhitelist { size } => Some((*size % 5) as u128),
        AdminOperation::SetReserveBlacklist { size } => Some((*size % 5) as u128),
        AdminOperation::SetLiquidationWhitelist { size } => Some((*size % 5) as u128),
        AdminOperation::SetLiquidationBlacklist { size } => Some((*size % 5) as u128),
        _ => None,
    }
}

/// The amount a user operation sends, where it has one.
pub open spec fn user_amount_of(op: UserOperation) -> Option<u128> {
    match op {
        UserOperation::Supply { amount } => Some(
            clamp(amount as int, 1, (INITIAL_SUPPLY / 10) as int) as u128,
        ),
        UserOperation::SupplyOnBehalf { amount } => Some(
            clamp(amount as int, 1, (INITIAL_SUPPLY / 10) as int) as u128,
        ),
        UserOperation::Borrow { amount } => Some(
            clamp(amount as int, 1, (INITIAL_SUPPLY / 20) as int) as u128,
        ),
        UserOperation::BorrowOnBehalf { amount } => Some(
            clamp(amount as int, 1, (INITIAL_SUPPLY / 20) as int) as u128,
        ),
        UserOperation::Repay { amount } => Some(if amount == 0 { 1 } else { amount as u128 }),
        UserOperation::Withdraw { amount } => Some(if amount == 0 { 1 } else { amount as u128 }),
        UserOperation::WithdrawOnBehalf { amount } => Some(
            if amount == 0 {
                1
            } else {
                amount as u128
            },
        ),
        UserOperation::SetCollateralEnabled { .. } => None,
        UserOperation::FlashLoan { amount } => Some(
            clamp(amount as int, 1, (INITIAL_SUPPLY / 10) as int) as u128,
        ),
    }
}

fn clamp_amount(amount: u64, hi: u128) -> (r: u128)
    requires
        hi >= 1,
    ensures
        r == clamp(amount as int, 1, hi as int),
{
    let a = amount as u128;
    if a < 1 {
        1
    } else if a > hi {
        hi
    } else {
        a
    }
}

/// The amount a user operation sends: at least 1, and at most a tenth of
/// the initial supply for supplies and flash loans, a twentieth for borrows.
/// `None` for the collateral switch.
pub fn user_amount(op: &UserOperation) -> (r: Option<u128>)
    ensures
        r == user_amount_of(*op),
{
    match op {
        UserOperation::Supply { amount } => Some(clamp_amount(*amount, INITIAL_SUPPLY / 10)),
        UserOperation::SupplyOnBehalf { amount } => Some(
            clamp_amount(*amount, INITIAL_SUPPLY / 10),
        ),
        UserOperation::Borrow { amount } => Some(clamp_amount(*amount, INITIAL_SUPPLY / 20)),
        UserOperation::BorrowOnBehalf { amount } => Some(
            clamp_amount(*amount, INITIAL_SUPPLY / 20),
        ),
        UserOperation::Repay { amount } => Some(if *amount == 0 { 1 } else { *amount as u128 }),
        UserOperation::Withdraw { amount } => Some(if *amount == 0 { 1 } else { *amount as u128 }),
        UserOperation::WithdrawOnBehalf { amount } => Some(
            if *amount == 0 {
                1
            } else {
                *amount as u128
            },
        ),
        UserOperation::SetCollateralEnabled { .. } => None,
        UserOperation::FlashLoan { amount } => Some(clamp_amount(*amount, INITIAL_SUPPLY / 10)),
    }
}

/// Whether a user operation acts for the target user rather than the caller
/// (supply, borrow or withdraw on behalf, and repay).
pub open spec fn on_behalf_of_target(op: UserOperation) -> bool {
    op is SupplyOnBehalf || op is BorrowOnBehalf || op is WithdrawOnBehalf || op is Repay
}

/// Whether a user operation names the target user as the account it acts for.
pub fn acts_on_target(op: &UserOperation) -> (r: bool)
    ensures
        r == on_behalf_of_target(*op),
{
    match op {
        UserOperation::SupplyOnBehalf { .. } => true,
        UserOperation::BorrowOnBehalf { .. } => true,
        UserOperation::WithdrawOnBehalf { .. } => true,
        UserOperation::Repay { .. } => true,
        _ => false,
    }
}

/// The seconds a time advance moves the clock: at most a year.
pub fn advance_seconds(seconds: u32) -> (a: u64)
    ensures
        a == (if seconds <= MAX_ADVANCE_SECONDS {
            seconds as int
        } else {
            MAX_ADVANCE_SECONDS as int
        }),
{
    let s = seconds as u64;
    if s <= MAX_ADVANCE_SECONDS {
        s
    } else {
        MAX_ADVANCE_SECONDS
    }
}

/// Whether an admin operation is checked against an expected authorization
/// (as opposed to only counting a success as unauthorized).
pub open spec fn judged_by_role(op: AdminOperation) -> bool {
    !(op is CollectProtocolReserves) && !(op is AcceptAdmin)
}

/// Who may perform an admin operation: the emergency admin pauses, the pool
/// admin does everything else (unpausing included); nobody may accept an
/// admin role here, since nobody was proposed.
pub open spec fn authorized_for(caller: ActorType, op: AdminOperation) -> bool {
    match op {
        AdminOperation::Pause => caller == ActorType::EmergencyAdmin,
        AdminOperation::AcceptAdmin => false,
        _ => caller == ActorType::PoolAdmin,
    }
}

/// Tally of authorization outcomes.
#[derive(Clone, Copy, Debug, PartialEq, Eq, Structural)]
pub struct AuthTracker {
    /// Calls an authorized caller made that failed anyway
    pub auth_failure_count: u32,
    /// Calls that succeeded for an unauthorized caller (should be 0)
    pub unauthorized_success_count: u32,
}

/// The tally after an admin call and its outcome.
pub open spec fn tally_admin(t: AuthTracker, caller: ActorType, op: AdminOperation, succeeded: bool) -> AuthTracker {
    let authorized = authorized_for(caller, op);
    if succeeded && !authorized {
        AuthTracker { unauthorized_success_count: (t.unauthorized_success_count + 1) as u32, ..t }
    } else if !succeeded && authorized && judged_by_role(op) {
        AuthTracker { auth_failure_count: (t.auth_failure_count + 1) as u32, ..t }
    } else {
        t
    }
}

/// The tally after a user call and its outcome: supplying or borrowing for
/// someone else with only the caller's authorization must not succeed.
pub open spec fn tally_user(
    t: AuthTracker,
    caller: ActorType,
    target_user: ActorType,
    op: UserOperation,
    succeeded: bool,
) -> AuthTracker {
    if (op is SupplyOnBehalf || op is BorrowOnBehalf) && caller != target_user && succeeded {
        AuthTracker { unauthorized_success_count: (t.unauthorized_success_count + 1) as u32, ..t }
    } else {
        t
    }
}

impl AuthTracker {
    /// No failures, no bypasses.
    pub fn new() -> (t: Self)
        ensures
            t.auth_failure_count == 0,
            t.unauthorized_success_count == 0,
    {
        AuthTracker { auth_failure_count: 0, unauthorized_success_count: 0 }
    }

    /// Record an auth-sensitive result: a success for a caller who should
    /// not be authorized is a bypass (and `false` is returned); a failure
    /// for one who should is counted as an authorization failure.
    pub fn verify_auth_result(&mut self, succeeded: bool, should_be_authorized: bool) -> (ok: bool)
        requires
            old(self).auth_failure_count < u32::MAX,
            old(self).unauthorized_success_count < u32::MAX,
        ensures
            ok == !(succeeded && !should_be_authorized),
            final(self).unauthorized_success_count == old(self).unauthorized_success_count + (
            if succeeded && !should_be_authorized {
                1int
            } else {
                0
            }),
            final(self).auth_failure_count == old(self).auth_failure_count + (
            if !succeeded && should_be_authorized {
                1int
            } else {
                0
            }),
    {
        if succeeded && !should_be_authorized {
            self.unauthorized_success_count = self.unauthorized_success_count + 1;
            false
        } else {
            if !succeeded && should_be_authorized {
                self.auth_failure_count = self.auth_failure_count + 1;
            }
            true
        }
    }

    /// Record the outcome of an admin operation attempted by `caller`.
    /// Returns `false` when an operation judged by role succeeded for an
    /// unauthorized caller; a collection of reserves or an acceptance that
    /// succeeded for such a caller is only counted.
    pub fn record_admin_result(&mut self, caller: ActorType, op: &AdminOperation, succeeded: bool) -> (ok: bool)
        requires
            old(self).auth_failure_count < u32::MAX,
            old(self).unauthorized_success_count < u32::MAX,
        ensures
            *final(self) == tally_admin(*old(self), caller, *op, succeeded),
            ok == !(judged_by_role(*op) && succeeded && !authorized_for(caller, *op)),
    {
        let admin = is_admin(caller);
        let emergency = is_emergency_admin(caller);
        match op {
            AdminOperation::CollectProtocolReserves => {
                if succeeded && !admin {
                    self.unauthorized_success_count = self.unauthorized_success_count + 1;
                }
                true
            },
            AdminOperation::AcceptAdmin => {
                if succeeded {
                    self.unauthorized_success_count = self.unauthorized_success_count + 1;
                }
                true
            },
            AdminOperation::Pause => self.verify_auth_result(succeeded, emergency),
            _ => self.verify_auth_result(succeeded, admin),
        }
    }

    /// Record the outcome of a user operation by `caller` for `target_user`.
    pub fn record_user_result(
        &mut self,
        caller: ActorType,
        target_user: ActorType,
        op: &UserOperation,
        succeeded: bool,
    )
        requires
            old(self).unauthorized_success_count < u32::MAX,
        ensures
            *final(self) == tally_user(*old(self), caller, target_user, *op, succeeded),
    {
        let is_self = caller == target_user;
        match op {
            UserOperation::SupplyOnBehalf { .. } | UserOperation::BorrowOnBehalf { .. } => {
                if !is_self && succeeded {
                    self.unauthorized_success_count = self.unauthorized_success_count + 1;
                }
            },
            _ => {},
        }
    }

    /// The final check: no unauthorized operation succeeded.
    pub fn no_unauthorized_successes(&self) -> (ok: bool)
        ensures
            ok == (self.unauthorized_success_count == 0),
    {
        self.unauthorized_success_count == 0
    }
}

/// An admin operation that succeeds for a caller outside its role is always
/// counted as unauthorized, and the tallies never go down.
pub proof fn lemma_unauthorized_admin_success_counted(
    t: AuthTracker,
    caller: ActorType,
    op: AdminOperation,
    succeeded: bool,
)
    requires
        t.auth_failure_count < u32::MAX,
        t.unauthorized_success_count < u32::MAX,
    ensures
        succeeded && !authorized_for(caller, op) ==> tally_admin(
            t,
            caller,
            op,
            succeeded,
        ).unauthorized_success_count == t.unauthorized_success_count + 1,
        tally_admin(t, caller, op, succeeded).unauthorized_success_count
            >= t.unauthorized_success_count,
        tally_admin(t, caller, op, succeeded).auth_failure_count >= t.auth_failure_count,
        caller != ActorType::PoolAdmin && caller != ActorType::EmergencyAdmin && succeeded
            ==> tally_admin(t, caller, op, succeeded).unauthorized_success_count
            == t.unauthorized_success_count + 1,
{
}

/// Users may change only their own positions: a successful supply or borrow
/// on behalf of another user is always counted as unauthorized, and any other
/// user operation leaves the tally unchanged.
pub proof fn lemma_foreign_position_change_counted(
    t: AuthTracker,
    caller: ActorType,
    target_user: ActorType,
    op: UserOperation,
    succeeded: bool,
)
    requires
        t.unauthorized_success_count < u32::MAX,
    ensures
        (op is SupplyOnBehalf || op is BorrowOnBehalf) && caller != target_user && succeeded
            ==> tally_user(t, caller, target_user, op, succeeded).unauthorized_success_count
            == t.unauthorized_success_count + 1,
        !((op is SupplyOnBehalf || op is BorrowOnBehalf) && caller != target_user && succeeded)
            ==> tally_user(t, caller, target_user, op, succeeded) == t,
        tally_user(t, caller, target_user, op, succeeded).auth_failure_count == t.auth_failure_count,
{
}

} // verus!
