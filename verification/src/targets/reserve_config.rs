//! Reserve-configuration target: boundary values for configurator calls, the
//! rule that says which configurations must be rejected, and the invariants
//! every stored reserve configuration keeps.
use vstd::prelude::*;

pub use crate::targets::views::{MockReflector, PriceData};

verus! {

/// Maximum valid basis points (100%)
pub const MAX_BPS: u32 = 10_000;
/// Minimum buffer between LTV and liquidation threshold (50 bps)
pub const MIN_BUFFER_BPS: u32 = 50;
/// Base price with 14 decimals
pub const BASE_PRICE: u128 = 1_000_000_000_000_000;
/// `u64::MAX` widened, the largest cap the configurator accepts
pub const U64_MAX: u128 = 18_446_744_073_709_551_615;

/// Hint for generating boundary values
#[derive(Clone, Copy, Debug, PartialEq, Eq, Structural)]
pub enum BoundaryHint {
    Raw,
    MaxValid,
    JustAboveMax,
    Zero,
    Max,
}

/// Reserve configuration operations
#[derive(Clone, Copy, Debug, PartialEq, Eq, Structural)]
pub enum ConfigOperation {
    /// Configure collateral parameters (LTV, liquidation threshold, bonus)
    ConfigureAsCollateral {
        ltv_bps: u16,
        liquidation_threshold_bps: u16,
        liquidation_bonus_bps: u16,
        ltv_hint: BoundaryHint,
        threshold_hint: BoundaryHint,
        bonus_hint: BoundaryHint,
    },
    /// Set reserve active state
    SetReserveActive { active: bool },
    /// Set reserve frozen state
    SetReserveFreeze { freeze: bool },
    /// Set reserve paused state (emergency admin only)
    SetReservePause { paused: bool },
    /// Set reserve factor
    SetReserveFactor { factor_bps: u16, hint: BoundaryHint },
    /// Enable/disable borrowing
    EnableBorrowing { enabled: bool },
    /// Enable/disable flashloaning
    SetFlashloaning { enabled: bool },
    /// Set supply cap
    SetSupplyCap { cap_low: u64, cap_high: u64, hint: BoundaryHint },
    /// Set borrow cap
    SetBorrowCap { cap_low: u64, cap_high: u64, hint: BoundaryHint },
    /// Set debt ceiling
    SetDebtCeiling { ceiling_low: u64, ceiling_high: u64, hint: BoundaryHint },
    /// Advance time
    AdvanceTime { seconds: u32 },
}

/// Fuzz input for reserve configuration
#[derive(Clone, Copy, Debug)]
pub struct ReserveConfigInput {
    /// Sequence of configuration operations
    pub operations: [Option<ConfigOperation>; 12],
    /// Initial LTV (used to test threshold relationship)
    pub initial_ltv_bps: u16,
    /// Initial liquidation threshold
    pub initial_threshold_bps: u16,
}

/// Parameters the reserve is initialised with.
#[derive(Clone, Copy, Debug, PartialEq, Eq, Structural)]
pub struct InitReserveParams {
    pub decimals: u32,
    pub ltv: u32,
    pub liquidation_threshold: u32,
    pub liquidation_bonus: u32,
    pub reserve_factor: u32,
    pub supply_cap: u128,
    pub borrow_cap: u128,
    pub borrowing_enabled: bool,
    pub flashloan_enabled: bool,
}

/// The basis-point value a hint selects.
pub open spec fn bps_value(raw: u16, hint: BoundaryHint) -> int {
    match hint {
        BoundaryHint::Raw => raw as int,
        BoundaryHint::MaxValid => MAX_BPS as int,
        BoundaryHint::JustAboveMax => MAX_BPS + 1,
        BoundaryHint::Zero => 0,
        BoundaryHint::Max => u32::MAX as int,
    }
}

/// The 128-bit number whose high and low 64-bit halves are given.
pub open spec fn joined_u128(low: u64, high: u64) -> int {
    high * 0x1_0000_0000_0000_0000 + low
}

/// The cap value a hint selects; a raw value is limited to twice `u64::MAX`.
pub open spec fn cap_value(low: u64, high: u64, hint: BoundaryHint) -> int {
    match hint {
        BoundaryHint::Raw => if joined_u128(low, high) < U64_MAX * 2 {
            joined_u128(low, high)
        } else {
            U64_MAX * 2
        },
        BoundaryHint::MaxValid => U64_MAX as int,
        BoundaryHint::JustAboveMax => U64_MAX + 1,
        BoundaryHint::Zero => 0,
        BoundaryHint::Max => u128::MAX as int,
    }
}

/// Turn a raw basis-point value and a boundary hint into the value sent to
/// the configurator.
pub fn process_bps_value(raw: u16, hint: BoundaryHint) -> (v: u32)
    ensures
        v == bps_value(raw, hint),
{
    match hint {
        BoundaryHint::Raw => raw as u32,
        BoundaryHint::MaxValid => MAX_BPS,
        BoundaryHint::JustAboveMax => MAX_BPS + 1,
        BoundaryHint::Zero => 0,
        BoundaryHint::Max => u32::MAX,
    }
}

/// Turn the two halves of a raw cap and a boundary hint into the cap sent to
/// the configurator.
pub fn process_cap_value(low: u64, high: u64, hint: BoundaryHint) -> (v: u128)
    ensures
        v == cap_value(low, high, hint),
{
    let raw = ((high as u128) << 64u128) | (low as u128);
    assert(raw == (high as u128) * 0x1_0000_0000_0000_0000u128 + (low as u128)) by (bit_vector)
        requires
            raw == ((high as u128) << 64u128) | (low as u128),
    ;
    match hint {
        BoundaryHint::Raw => {
            if raw < U64_MAX * 2 {
                raw
            } else {
                U64_MAX * 2
            }
        },
        BoundaryHint::MaxValid => U64_MAX,
        BoundaryHint::JustAboveMax => U64_MAX + 1,
        BoundaryHint::Zero => 0,
        BoundaryHint::Max => u128::MAX,
    }
}

/// The invariants a stored reserve configuration keeps.
pub open spec fn config_sound(ltv: int, threshold: int, bonus: int, reserve_factor: int) -> bool {
    &&& ltv <= MAX_BPS
    &&& threshold <= MAX_BPS
    &&& ltv > 0 && threshold > 0 ==> threshold >= ltv + MIN_BUFFER_BPS
    &&& bonus <= MAX_BPS
    &&& reserve_factor <= MAX_BPS
}

/// Check the reserve-configuration invariants on the values read back from
/// the router: LTV, liquidation threshold, liquidation bonus and reserve
/// factor within 10,000 bps, and the threshold at least 50 bps above a
/// non-zero LTV.
pub fn check_reserve_config_invariants(
    ltv: u32,
    threshold: u32,
    bonus: u32,
    reserve_factor: u32,
) -> (ok: bool)
    ensures
        ok == config_sound(ltv as int, threshold as int, bonus as int, reserve_factor as int),
{
    if ltv > MAX_BPS || threshold > MAX_BPS {
        return false;
    }
    if ltv > 0 && threshold > 0 && threshold < ltv + MIN_BUFFER_BPS {
        return false;
    }
    bonus <= MAX_BPS && reserve_factor <= MAX_BPS
}

/// The collateral configurations the configurator must refuse.
pub open spec fn collateral_config_invalid(ltv: int, threshold: int, bonus: int) -> bool {
    ||| ltv > MAX_BPS
    ||| threshold > MAX_BPS
    ||| bonus > MAX_BPS
    ||| (threshold > 0 && ltv > 0 && threshold < ltv + MIN_BUFFER_BPS)
    ||| (threshold > 0 && threshold <= ltv)
}

/// Whether a collateral configuration must be refused: any value above
/// 10,000 bps, a threshold less than 50 bps above a non-zero LTV, or a
/// non-zero threshold not above the LTV.
pub fn collateral_config_should_fail(ltv: u32, threshold: u32, bonus: u32) -> (r: bool)
    ensures
        r == collateral_config_invalid(ltv as int, threshold as int, bonus as int),
{
    ltv > MAX_BPS || threshold > MAX_BPS || bonus > MAX_BPS || (threshold > 0 && ltv > 0
        && threshold < ltv + MIN_BUFFER_BPS) || (threshold > 0 && threshold <= ltv)
}

/// Whether the configurator must refuse an operation, given the values the
/// boundary hints select.
pub open spec fn operation_must_fail(op: ConfigOperation) -> bool {
    match op {
        ConfigOperation::ConfigureAsCollateral {
            ltv_bps,
            liquidation_threshold_bps,
            liquidation_bonus_bps,
            ltv_hint,
            threshold_hint,
            bonus_hint,
        } => collateral_config_invalid(
            bps_value(ltv_bps, ltv_hint),
            bps_value(liquidation_threshold_bps, threshold_hint),
            bps_value(liquidation_bonus_bps, bonus_hint),
        ),
        ConfigOperation::SetReserveFactor { factor_bps, hint } => bps_value(factor_bps, hint)
            > MAX_BPS,
        ConfigOperation::SetSupplyCap { cap_low, cap_high, hint } => cap_value(
            cap_low,
            cap_high,
            hint,
        ) > U64_MAX,
        ConfigOperation::SetBorrowCap { cap_low, cap_high, hint } => cap_value(
            cap_low,
            cap_high,
            hint,
        ) > U64_MAX,
        ConfigOperation::SetDebtCeiling { ceiling_low, ceiling_high, hint } => cap_value(
            ceiling_low,
            ceiling_high,
            hint,
        ) > U64_MAX,
        _ => false,
    }
}

/// Whether the configurator must refuse `op`: an invalid collateral
/// configuration, a reserve factor above 10,000 bps, or a supply cap, borrow
/// cap or debt ceiling above `u64::MAX`.  Flag changes and time advances may
/// succeed or fail.
pub fn operation_should_fail(op: &ConfigOperation) -> (r: bool)
    ensures
        r == operation_must_fail(*op),
{
    match op {
        ConfigOperation::ConfigureAsCollateral {
            ltv_bps,
            liquidation_threshold_bps,
            liquidation_bonus_bps,
            ltv_hint,
            threshold_hint,
            bonus_hint,
        } => {
            let ltv = process_bps_value(*ltv_bps, *ltv_hint);
            let threshold = process_bps_value(*liquidation_threshold_bps, *threshold_hint);
            let bonus = process_bps_value(*liquidation_bonus_bps, *bonus_hint);
            collateral_config_should_fail(ltv, threshold, bonus)
        },
        ConfigOperation::SetReserveFactor { factor_bps, hint } => {
            process_bps_value(*factor_bps, *hint) > MAX_BPS
        },
        ConfigOperation::SetSupplyCap { cap_low, cap_high, hint } => {
            process_cap_value(*cap_low, *cap_high, *hint) > U64_MAX
        },
        ConfigOperation::SetBorrowCap { cap_low, cap_high, hint } => {
            process_cap_value(*cap_low, *cap_high, *hint) > U64_MAX
        },
        ConfigOperation::SetDebtCeiling { ceiling_low, ceiling_high, hint } => {
            process_cap_value(*ceiling_low, *ceiling_high, *hint) > U64_MAX
        },
        _ => false,
    }
}

/// The initial LTV and threshold the target derives from its input: the LTV
/// is capped at 9,850 bps, the threshold raised to at least 51 bps above it
/// and capped at 10,000 bps.
pub fn initial_ltv_threshold(initial_ltv_bps: u16, initial_threshold_bps: u16) -> (r: (u32, u32))
    ensures
        r.0 == (if initial_ltv_bps <= MAX_BPS - MIN_BUFFER_BPS - 100 {
            initial_ltv_bps as int
        } else {
            MAX_BPS - MIN_BUFFER_BPS - 100
        }),
        r.1 == (if initial_threshold_bps >= r.0 + MIN_BUFFER_BPS + 1 {
            if initial_threshold_bps <= MAX_BPS {
                initial_threshold_bps as int
            } else {
                MAX_BPS as int
            }
        } else {
            r.0 + MIN_BUFFER_BPS + 1
        }),
        !collateral_config_invalid(r.0 as int, r.1 as int, 0),
{
    let cap = MAX_BPS - MIN_BUFFER_BPS - 100;
    let ltv: u32 = if (initial_ltv_bps as u32) < cap {
        initial_ltv_bps as u32
    } else {
        cap
    };
    let floor = ltv + MIN_BUFFER_BPS + 1;
    let raised: u32 = if (initial_threshold_bps as u32) > floor {
        initial_threshold_bps as u32
    } else {
        floor
    };
    let threshold: u32 = if raised < MAX_BPS {
        raised
    } else {
        MAX_BPS
    };
    (ltv, threshold)
}

/// The parameters the reserve is initialised with: the LTV capped at 9,949
/// bps, the threshold 51 bps above it, a 5% bonus, a 10% reserve factor,
/// caps of 1e15, borrowing and flash loans enabled.  The threshold argument
/// the target passes along plays no part.
pub fn reserve_init_params(initial_ltv: u32) -> (p: InitReserveParams)
    ensures
        p.ltv == (if initial_ltv <= MAX_BPS - MIN_BUFFER_BPS - 1 {
            initial_ltv as int
        } else {
            MAX_BPS - MIN_BUFFER_BPS - 1
        }),
        p.liquidation_threshold == p.ltv + MIN_BUFFER_BPS + 1,
        p.decimals == 7,
        p.liquidation_bonus == 500,
        p.reserve_factor == 1000,
        p.supply_cap == 1_000_000_000_000_000,
        p.borrow_cap == 1_000_000_000_000_000,
        p.borrowing_enabled,
        p.flashloan_enabled,
        !collateral_config_invalid(
            p.ltv as int,
            p.liquidation_threshold as int,
            p.liquidation_bonus as int,
        ),
        config_sound(
            p.ltv as int,
            p.liquidation_threshold as int,
            p.liquidation_bonus as int,
            p.reserve_factor as int,
        ),
{
    let cap = MAX_BPS - MIN_BUFFER_BPS - 1;
    let ltv: u32 = if initial_ltv < cap {
        initial_ltv
    } else {
        cap
    };
    let sum = ltv + MIN_BUFFER_BPS + 1;
    let threshold: u32 = if sum < MAX_BPS {
        sum
    } else {
        MAX_BPS
    };
    InitReserveParams {
        decimals: 7,
        ltv,
        liquidation_threshold: threshold,
        liquidation_bonus: 500,
        reserve_factor: 1000,
        supply_cap: 1_000_000_000_000_000,
        borrow_cap: 1_000_000_000_000_000,
        borrowing_enabled: true,
        flashloan_enabled: true,
    }
}

/// Every collateral configuration the configurator may accept, stored with a
/// reserve factor within 10,000 bps, satisfies the reserve invariants.
pub proof fn lemma_accepted_config_is_sound(
    ltv: int,
    threshold: int,
    bonus: int,
    reserve_factor: int,
)
    requires
        !collateral_config_invalid(ltv, threshold, bonus),
        reserve_factor <= MAX_BPS,
    ensures
        config_sound(ltv, threshold, bonus, reserve_factor),
{
}

} // verus!
