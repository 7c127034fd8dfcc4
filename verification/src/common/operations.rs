//! The operation model of the multi-asset protocol fuzzer.
use vstd::prelude::*;

verus! {

/// Which flash-loan receiver contract a flash loan goes to.
#[derive(Debug, Clone, Copy, PartialEq, Eq, Structural)]
pub enum FlashLoanReceiverType {
    Standard,
    Reentrant,
    ReentrantRepayLiquidation,
    NonRepaying,
    StateManipulating,
    OracleManipulating,
}

/// One step of a generated operation sequence.
#[derive(Debug, Clone, Copy)]
pub enum Operation {
    Supply { user_idx: u8, asset_idx: u8, amount_percent: u8 },
    SupplyOnBehalf { user_idx: u8, recipient_idx: u8, asset_idx: u8, amount_percent: u8 },
    Withdraw { user_idx: u8, asset_idx: u8, amount_percent: u8 },
    WithdrawAll { user_idx: u8, asset_idx: u8 },
    WithdrawToRecipient { user_idx: u8, recipient_idx: u8, asset_idx: u8, amount_percent: u8 },
    Borrow { user_idx: u8, asset_idx: u8, amount_percent: u8 },
    BorrowToRecipient { user_idx: u8, recipient_idx: u8, asset_idx: u8, amount_percent: u8 },
    Repay { user_idx: u8, asset_idx: u8, amount_percent: u8 },
    RepayAll { user_idx: u8, asset_idx: u8 },
    RepayOnBehalf { payer_idx: u8, borrower_idx: u8, asset_idx: u8, amount_percent: u8 },
    SetCollateral { user_idx: u8, asset_idx: u8, use_as_collateral: bool },
    TimeWarp { seconds: u32 },
    ExtremeTimeWarp { years: u8 },
    PriceChange { asset_idx: u8, price_change_bps: i16 },
    Liquidate { liquidator_idx: u8, user_idx: u8, collateral_idx: u8, debt_idx: u8, amount_percent: u8 },
    LiquidateReceiveAToken { liquidator_idx: u8, user_idx: u8, collateral_idx: u8, debt_idx: u8, amount_percent: u8 },
    PrepareLiquidation { liquidator_idx: u8, user_idx: u8, collateral_idx: u8, debt_idx: u8 },
    CreateAndLiquidate { liquidator_idx: u8, user_idx: u8, collateral_idx: u8, debt_idx: u8 },
    FlashLoan { user_idx: u8, asset_idx: u8, amount_percent: u8, receiver_type: FlashLoanReceiverType },
    MultiAssetFlashLoan { user_idx: u8, asset_indices: [u8; 2], amount_percents: [u8; 2], receiver_type: FlashLoanReceiverType },
    SwapCollateral { user_idx: u8, from_idx: u8, to_idx: u8, amount_percent: u8 },
    ZeroAmountSupply { user_idx: u8, asset_idx: u8 },
    ZeroAmountBorrow { user_idx: u8, asset_idx: u8 },
    ZeroAmountWithdraw { user_idx: u8, asset_idx: u8 },
    ZeroAmountRepay { user_idx: u8, asset_idx: u8 },
    DustSupply { user_idx: u8, asset_idx: u8, dust_amount: u8 },
    DustBorrow { user_idx: u8, asset_idx: u8, dust_amount: u8 },
    DustWithdraw { user_idx: u8, asset_idx: u8, dust_amount: u8 },
    DustRepay { user_idx: u8, asset_idx: u8, dust_amount: u8 },
    MaxAmountSupply { user_idx: u8, asset_idx: u8 },
    MaxAmountBorrow { user_idx: u8, asset_idx: u8 },
    PriceToZero { asset_idx: u8 },
    PriceToMax { asset_idx: u8 },
    OracleStale { asset_idx: u8 },
    PriceVolatility { asset_idx: u8, swings: u8 },
    PauseProtocol,
    UnpauseProtocol,
    CollectProtocolReserves { asset_idx: u8 },
    SelfLiquidationAttempt { user_idx: u8, collateral_idx: u8, debt_idx: u8 },
    MultiAssetLiquidation { liquidator_idx: u8, user_idx: u8, collateral_idx: u8, debt_idx: u8 },
    RapidSupplyWithdraw { user_idx: u8, asset_idx: u8, iterations: u8 },
    RapidBorrowRepay { user_idx: u8, asset_idx: u8, iterations: u8 },
    SandwichPriceChange { attacker_idx: u8, victim_idx: u8, asset_idx: u8 },
    InterestAccrualExploit { user_idx: u8, asset_idx: u8 },
    TransferAToken { from_idx: u8, to_idx: u8, asset_idx: u8, amount_percent: u8 },
    DrainLiquidity { user_idx: u8, asset_idx: u8 },
    MaxUtilization { user_idx: u8, asset_idx: u8 },
    ExecuteLiquidation { liquidator_idx: u8, user_idx: u8, collateral_idx: u8, debt_idx: u8, amount_percent: u8 },
    UpdateReserveConfiguration { asset_idx: u8, ltv: u32, liquidation_threshold: u32, liquidation_bonus: u32 },
    UpdateReserveRateStrategy { asset_idx: u8 },
    DropReserve { asset_idx: u8 },
    SetReserveSupplyCap { asset_idx: u8, cap: u32 },
    SetReserveBorrowCap { asset_idx: u8, cap: u32 },
    SetReserveDebtCeiling { asset_idx: u8, ceiling: u32 },
    SetReserveWhitelist { asset_idx: u8, user_idx: u8, add: bool },
    SetReserveBlacklist { asset_idx: u8, user_idx: u8, add: bool },
    SetLiquidationWhitelist { user_idx: u8, add: bool },
    SetLiquidationBlacklist { user_idx: u8, add: bool },
    ProposePoolAdmin { new_admin_idx: u8 },
    AcceptPoolAdmin { pending_admin_idx: u8 },
    BorrowMaxWithdrawAttempt { user_idx: u8, supply_asset_idx: u8, borrow_asset_idx: u8 },
    PriceCrashLiquidation { user_idx: u8, liquidator_idx: u8, asset_idx: u8 },
    FirstDepositorAttack { attacker_idx: u8, victim_idx: u8, asset_idx: u8 },
    DonationAttack { attacker_idx: u8, asset_idx: u8, donation_amount: u8 },
    SetReserveActive { asset_idx: u8, active: bool },
    SetReserveFrozen { asset_idx: u8, frozen: bool },
    FlashLoanWhilePaused { user_idx: u8, asset_idx: u8, amount_percent: u8 },
    BadDebtScenario { user_idx: u8, asset_idx: u8 },
    FullMultiAssetLiquidation { liquidator_idx: u8, user_idx: u8 },
}

/// Risk and rate parameters of one reserve.
#[derive(Debug, Clone, Copy, PartialEq, Eq, Structural)]
pub struct AssetConfig {
    pub ltv: u32,
    pub liquidation_threshold: u32,
    pub liquidation_bonus: u32,
    pub reserve_factor: u32,
    pub base_rate: u128,
    pub slope1: u128,
    pub slope2: u128,
    pub optimal_utilization: u128,
    pub supply_cap: u128,
    pub borrow_cap: u128,
    pub flashloan_enabled: bool,
}

/// A generated fuzz input: an operation sequence, four reserve
/// configurations and four initial prices.
#[derive(Debug)]
pub struct Input {
    pub operations: Vec<Operation>,
    pub asset_configs: [AssetConfig; 4],
    pub initial_prices: [u128; 4],
}

} // verus!
