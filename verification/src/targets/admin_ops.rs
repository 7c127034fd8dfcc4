//! Admin-operations target: the router call each administrative operation
//! makes, which of those calls must be refused, the pause and premium state
//! the target tracks from the outcomes, and the invariants checked after each
//! step.
use vstd::prelude::*;

pub use crate::targets::views::{MockReflector, PriceData};

verus! {

/// Maximum valid basis points (100%)
pub const MAX_BPS: u128 = 10_000;
/// WAD constant for health factor (1e18)
pub const WAD: u128 = 1_000_000_000_000_000_000;
/// RAY constant
pub const RAY: u128 = 1_000_000_000;
/// Base price with 14 decimals (1 USD)
pub const BASE_PRICE: u128 = 1_000_000_000_000_000;
/// Longest single time advance, about one year in seconds
pub const MAX_ADVANCE_SECONDS: u64 = 31_536_000;

/// Hint for generating boundary values
#[derive(Clone, Copy, Debug, PartialEq, Eq, Structural)]
pub enum BoundaryHint {
    /// Use raw value
    Raw,
    /// Use maximum valid value
    MaxValid,
    /// Use value just above maximum (should fail)
    JustAboveMax,
    /// Use zero
    Zero,
    /// Use u128::MAX (should fail for most)
    Max,
}

/// Administrative operations that can be performed
#[derive(Clone, Copy, Debug, PartialEq, Eq, Structural)]
pub enum AdminOperation {
    /// Set flash loan premium (must be <= max)
    SetFlashLoanPremium { premium_bps: u16, hint: BoundaryHint },
    /// Set maximum flash loan premium
    SetFlashLoanPremiumMax { max_premium_bps: u16, hint: BoundaryHint },
    /// Set health factor liquidation threshold
    SetHfLiquidationThreshold { threshold_wad: u64 },
    /// Set minimum swap output in basis points (max 10,000)
    SetMinSwapOutputBps { min_output_bps: u16, hint: BoundaryHint },
    /// Set partial liquidation health factor threshold
    SetPartialLiqHfThreshold { threshold_wad: u64 },
    /// Set treasury address
    SetTreasury,
    /// Set flash liquidation helper address
    SetFlashLiquidationHelper,
    /// Set incentives contract address
    SetIncentivesContract,
    /// Set DEX router address
    SetDexRouter,
    /// Set DEX factory address
    SetDexFactory,
    /// Set pool configurator address
    SetPoolConfigurator,
    /// Set reserve whitelist (empty = open access)
    SetReserveWhitelist { whitelist_size: u8 },
    /// Set reserve blacklist
    SetReserveBlacklist { blacklist_size: u8 },
    /// Set liquidation whitelist
    SetLiquidationWhitelist { whitelist_size: u8 },
    /// Set liquidation blacklist
    SetLiquidationBlacklist { blacklist_size: u8 },
    /// Collect protocol reserves to treasury (PoolAdmin only)
    CollectProtocolReserves,
    /// Pause protocol (EmergencyAdmin only)
    Pause,
    /// Unpause protocol (PoolAdmin only)
    Unpause,
    /// Advance ledger time
    AdvanceTime { seconds: u32 },
}

/// Fuzz input for admin operations
#[derive(Clone, Copy, Debug)]
pub struct AdminInput {
    /// Sequence of admin operations
    pub operations: [Option<AdminOperation>; 12],
    /// Initial flash loan premium max (for ordering test)
    pub initial_premium_max: u16,
}

/// The router call an operation makes, with the values it sends.
#[derive(Clone, Copy, Debug, PartialEq, Eq, Structural)]
pub enum AdminCall {
    /// `set_flash_loan_premium`; `must_fail` when the premium exceeds the
    /// current maximum
    SetFlashLoanPremium { premium: u128, must_fail: bool },
    /// `set_flash_loan_premium_max`
    SetFlashLoanPremiumMax { max_premium: u128 },
    /// `set_hf_liquidation_threshold`
    SetHfLiquidationThreshold { threshold: u128 },
    /// `set_min_swap_output_bps`; `must_fail` above 10,000 bps
    SetMinSwapOutputBps { min_output: u128, must_fail: bool },
    /// `set_partial_liq_hf_threshold`
    SetPartialLiqHfThreshold { threshold: u128 },
    /// `set_treasury` with a fresh address
    SetTreasury,
    /// `set_flash_liquidation_helper` with a fresh address
    SetFlashLiquidationHelper,
    /// `set_incentives_contract` with a fresh address
    SetIncentivesContract,
    /// `set_dex_router` with a fresh address
    SetDexRouter,
    /// `set_dex_factory` with a fresh address
    SetDexFactory,
    /// `set_pool_configurator` with a fresh address
    SetPoolConfigurator,
    /// `set_reserve_whitelist` with `size` fresh addresses
    SetReserveWhitelist { size: u8 },
    /// `set_reserve_blacklist` with `size` fresh addresses
    SetReserveBlacklist { size: u8 },
    /// `set_liquidation_whitelist` with `size` fresh addresses
    SetLiquidationWhitelist { size: u8 },
    /// `set_liquidation_blacklist` with `size` fresh addresses
    SetLiquidationBlacklist { size: u8 },
    /// `collect_protocol_reserves`
    CollectProtocolReserves,
    /// `pause`, called by the emergency admin
    Pause,
    /// `unpause`, called by the pool admin
    Unpause,
    /// Move the ledger clock forward by `advance` seconds (nothing when 0)
    AdvanceTime { advance: u64 },
}

/// The value a hint selects, relative to the largest valid value.
pub open spec fn bps_value(raw: u16, hint: BoundaryHint, max_valid: u128) -> int {
    match hint {
        BoundaryHint::Raw => raw as int,
        BoundaryHint::MaxValid => max_valid as int,
        BoundaryHint::JustAboveMax => if max_valid == u128::MAX {
            u128::MAX as int
        } else {
            max_valid + 1
        },
        BoundaryHint::Zero => 0,
        BoundaryHint::Max => u128::MAX as int,
    }
}

/// Turn a raw basis-point value and a boundary hint into the value sent to
/// the router; "just above" saturates at `u128::MAX`.
pub fn process_bps_value(raw: u16, hint: BoundaryHint, max_valid: u128) -> (v: u128)
    ensures
        v == bps_value(raw, hint, max_valid),
{
    match hint {
        BoundaryHint::Raw => raw as u128,
        BoundaryHint::MaxValid => max_valid,
        BoundaryHint::JustAboveMax => max_valid.saturating_add(1),
        BoundaryHint::Zero => 0,
        BoundaryHint::Max => u128::MAX,
    }
}

/// A health-factor threshold given in hundredths, scaled to WAD.
pub fn scaled_hf_threshold(threshold_wad: u64) -> (t: u128)
    ensures
        t == threshold_wad * WAD / 100,
{
    assert(threshold_wad * WAD <= u128::MAX) by (nonlinear_arith)
        requires
            threshold_wad <= u64::MAX,
            WAD == 1_000_000_000_000_000_000u128,
    ;
    (threshold_wad as u128) * WAD / 100
}

/// The call an operation makes.
pub open spec fn call_for(op: AdminOperation, current_max: u128) -> AdminCall {
    match op {
        AdminOperation::SetFlashLoanPremium { premium_bps, hint } => {
            let premium = bps_value(premium_bps, hint, current_max);
            AdminCall::SetFlashLoanPremium {
                premium: premium as u128,
                must_fail: premium > current_max,
            }
        },
        AdminOperation::SetFlashLoanPremiumMax { max_premium_bps, hint } => {
            AdminCall::SetFlashLoanPremiumMax {
                max_premium: bps_value(max_premium_bps, hint, (MAX_BPS * 10) as u128) as u128,
            }
        },
        AdminOperation::SetHfLiquidationThreshold { threshold_wad } => {
            AdminCall::SetHfLiquidationThreshold {
                threshold: (threshold_wad * WAD / 100) as u128,
            }
        },
        AdminOperation::SetMinSwapOutputBps { min_output_bps, hint } => {
            let min_output = bps_value(min_output_bps, hint, MAX_BPS);
            AdminCall::SetMinSwapOutputBps {
                min_output: min_output as u128,
                must_fail: min_output > MAX_BPS,
            }
        },
        AdminOperation::SetPartialLiqHfThreshold { threshold_wad } => {
            AdminCall::SetPartialLiqHfThreshold { threshold: (threshold_wad * WAD / 100) as u128 }
        },
        AdminOperation::SetTreasury => AdminCall::SetTreasury,
        AdminOperation::SetFlashLiquidationHelper => AdminCall::SetFlashLiquidationHelper,
        AdminOperation::SetIncentivesContract => AdminCall::SetIncentivesContract,
        AdminOperation::SetDexRouter => AdminCall::SetDexRouter,
        AdminOperation::SetDexFactory => AdminCall::SetDexFactory,
        AdminOperation::SetPoolConfigurator => AdminCall::SetPoolConfigurator,
        AdminOperation::SetReserveWhitelist { whitelist_size } => AdminCall::SetReserveWhitelist {
            size: whitelist_size % 5,
        },
        AdminOperation::SetReserveBlacklist { blacklist_size } => AdminCall::SetReserveBlacklist {
            size: blacklist_size % 5,
        },
        AdminOperation::SetLiquidationWhitelist { whitelist_size } => {
            AdminCall::SetLiquidationWhitelist { size: whitelist_size % 5 }
        },
        AdminOperation::SetLiquidationBlacklist { blacklist_size } => {
            AdminCall::SetLiquidationBlacklist { size: blacklist_size % 5 }
        },
        AdminOperation::CollectProtocolReserves => AdminCall::CollectProtocolReserves,
        AdminOperation::Pause => AdminCall::Pause,
        AdminOperation::Unpause => AdminCall::Unpause,
        AdminOperation::AdvanceTime { seconds } => AdminCall::AdvanceTime {
            advance: (seconds as u64) % MAX_ADVANCE_SECONDS,
        },
    }
}

/// The router call an operation makes, given the flash-loan premium maximum
/// the router reported just before: values selected by the hints (relative
/// to the current maximum for the premium, to 1000% for the maximum, to 100%
/// for the minimum swap output), thresholds scaled to WAD, list sizes below
/// five and time advances below a year.
pub fn plan_admin_call(op: &AdminOperation, current_max: u128) -> (c: AdminCall)
    ensures
        c == call_for(*op, current_max),
{
    match op {
        AdminOperation::SetFlashLoanPremium { premium_bps, hint } => {
            let premium = process_bps_value(*premium_bps, *hint, current_max);
            AdminCall::SetFlashLoanPremium { premium, must_fail: premium > current_max }
        },
        AdminOperation::SetFlashLoanPremiumMax { max_premium_bps, hint } => {
            AdminCall::SetFlashLoanPremiumMax {
                max_premium: process_bps_value(*max_premium_bps, *hint, MAX_BPS * 10),
            }
        },
        AdminOperation::SetHfLiquidationThreshold { threshold_wad } => {
            AdminCall::SetHfLiquidationThreshold { threshold: scaled_hf_threshold(*threshold_wad) }
        },
        AdminOperation::SetMinSwapOutputBps { min_output_bps, hint } => {
            let min_output = process_bps_value(*min_output_bps, *hint, MAX_BPS);
            AdminCall::SetMinSwapOutputBps { min_output, must_fail: min_output > MAX_BPS }
        },
        AdminOperation::SetPartialLiqHfThreshold { threshold_wad } => {
            AdminCall::SetPartialLiqHfThreshold { threshold: scaled_hf_threshold(*threshold_wad) }
        },
        AdminOperation::SetTreasury => AdminCall::SetTreasury,
        AdminOperation::SetFlashLiquidationHelper => AdminCall::SetFlashLiquidationHelper,
        AdminOperation::SetIncentivesContract => AdminCall::SetIncentivesContract,
        AdminOperation::SetDexRouter => AdminCall::SetDexRouter,
        AdminOperation::SetDexFactory => AdminCall::SetDexFactory,
        AdminOperation::SetPoolConfigurator => AdminCall::SetPoolConfigurator,
        AdminOperation::SetReserveWhitelist { whitelist_size } => {
            AdminCall::SetReserveWhitelist { size: *whitelist_size % 5 }
        },
        AdminOperation::SetReserveBlacklist { blacklist_size } => {
            AdminCall::SetReserveBlacklist { size: *blacklist_size % 5 }
        },
        AdminOperation::SetLiquidationWhitelist { whitelist_size } => {
            AdminCall::SetLiquidationWhitelist { size: *whitelist_size % 5 }
        },
        AdminOperation::SetLiquidationBlacklist { blacklist_size } => {
            AdminCall::SetLiquidationBlacklist { size: *blacklist_size % 5 }
        },
        AdminOperation::CollectProtocolReserves => AdminCall::CollectProtocolReserves,
        AdminOperation::Pause => AdminCall::Pause,
        AdminOperation::Unpause => AdminCall::Unpause,
        AdminOperation::AdvanceTime { seconds } => {
            AdminCall::AdvanceTime { advance: (*seconds as u64) % MAX_ADVANCE_SECONDS }
        },
    }
}

/// The premium maximum set before the first operation: at least 30 bps.
pub fn initial_premium_max(requested: u16) -> (m: u128)
    ensures
        m == (if requested >= 30 {
            requested as int
        } else {
            30
        }),
{
    if requested >= 30 {
        requested as u128
    } else {
        30
    }
}

/// What the target believes of the router between operations.
#[derive(Clone, Copy, Debug, PartialEq, Eq, Structural)]
pub struct AdminState {
    /// Whether the protocol should be paused
    pub is_paused: bool,
    /// Whether the premium maximum was once set below the current premium
    pub premium_invariant_violated: bool,
}

/// The state after a call and its outcome: a successful pause or unpause
/// sets the pause flag; a successful premium maximum below the premium then
/// in force marks the premium invariant as broken for good.
pub open spec fn state_after(
    s: AdminState,
    call: AdminCall,
    current_premium: u128,
    succeeded: bool,
) -> AdminState {
    match call {
        AdminCall::Pause => if succeeded {
            AdminState { is_paused: true, ..s }
        } else {
            s
        },
        AdminCall::Unpause => if succeeded {
            AdminState { is_paused: false, ..s }
        } else {
            s
        },
        AdminCall::SetFlashLoanPremiumMax { max_premium } => if max_premium < current_premium
            && succeeded {
            AdminState { premium_invariant_violated: true, ..s }
        } else {
            s
        },
        _ => s,
    }
}

impl AdminState {
    /// Not paused, premium invariant intact.
    pub fn new() -> (s: Self)
        ensures
            !s.is_paused,
            !s.premium_invariant_violated,
    {
        AdminState { is_paused: false, premium_invariant_violated: false }
    }

    /// Take in the outcome of a call; `current_premium` is the flash-loan
    /// premium the router reported before the call.
    pub fn record_outcome(&mut self, call: &AdminCall, current_premium: u128, succeeded: bool)
        ensures
            *final(self) == state_after(*old(self), *call, current_premium, succeeded),
    {
        match call {
            AdminCall::Pause => {
                if succeeded {
                    self.is_paused = true;
                }
            },
            AdminCall::Unpause => {
                if succeeded {
                    self.is_paused = false;
                }
            },
            AdminCall::SetFlashLoanPremiumMax { max_premium } => {
                if *max_premium < current_premium && succeeded {
                    self.premium_invariant_violated = true;
                }
            },
            _ => {},
        }
    }
}

/// The invariants checked after each step.
pub open spec fn admin_invariants_hold(
    premium: u128,
    premium_max: u128,
    min_swap: u128,
    actual_paused: bool,
    expected_paused: bool,
    skip_premium_check: bool,
) -> bool {
    &&& !skip_premium_check ==> premium <= premium_max
    &&& min_swap <= MAX_BPS
    &&& actual_paused == expected_paused
}

/// Check the admin invariants on the values read from the router: the
/// flash-loan premium within its maximum (unless the maximum was once set
/// below it), the minimum swap output within 10,000 bps, and the pause flag
/// as the target expects.
pub fn check_admin_invariants(
    premium: u128,
    premium_max: u128,
    min_swap: u128,
    actual_paused: bool,
    expected_paused: bool,
    skip_premium_check: bool,
) -> (ok: bool)
    ensures
        ok == admin_invariants_hold(
            premium,
            premium_max,
            min_swap,
            actual_paused,
            expected_paused,
            skip_premium_check,
        ),
{
    if !skip_premium_check && premium > premium_max {
        return false;
    }
    min_swap <= MAX_BPS && actual_paused == expected_paused
}

/// Once the premium invariant is marked broken it stays so, and the pause
/// flag follows the last pause or unpause that succeeded.
pub proof fn lemma_state_after_laws(
    s: AdminState,
    call: AdminCall,
    current_premium: u128,
    succeeded: bool,
)
    ensures
        s.premium_invariant_violated ==> state_after(
            s,
            call,
            current_premium,
            succeeded,
        ).premium_invariant_violated,
        call == AdminCall::Pause && succeeded ==> state_after(
            s,
            call,
            current_premium,
            succeeded,
        ).is_paused,
        call == AdminCall::Unpause && succeeded ==> !state_after(
            s,
            call,
            current_premium,
            succeeded,
        ).is_paused,
        !succeeded ==> state_after(s, call, current_premium, succeeded) == s,
{
}

/// A premium chosen "just above" a maximum below `u128::MAX` must be refused.
pub proof fn lemma_just_above_max_premium_must_fail(premium_bps: u16, current_max: u128)
    requires
        current_max < u128::MAX,
    ensures
        call_for(
            AdminOperation::SetFlashLoanPremium { premium_bps, hint: BoundaryHint::JustAboveMax },
            current_max,
        ) == (AdminCall::SetFlashLoanPremium { premium: (current_max + 1) as u128, must_fail: true }),
{
}

} // verus!
