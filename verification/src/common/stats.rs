//! Counters of generated operations and of executed invariant checks.
use vstd::prelude::*;
use crate::common::operations::Operation;

verus! {

/// Positions of the per-kind operation counters.
pub const STAT_SUPPLY: usize = 0;
pub const STAT_SUPPLY_ON_BEHALF: usize = 1;
pub const STAT_WITHDRAW: usize = 2;
pub const STAT_WITHDRAW_ALL: usize = 3;
pub const STAT_WITHDRAW_TO_RECIPIENT: usize = 4;
pub const STAT_BORROW: usize = 5;
pub const STAT_BORROW_TO_RECIPIENT: usize = 6;
pub const STAT_REPAY: usize = 7;
pub const STAT_REPAY_ALL: usize = 8;
pub const STAT_REPAY_ON_BEHALF: usize = 9;
pub const STAT_SET_COLLATERAL: usize = 10;
pub const STAT_TIME_WARP: usize = 11;
pub const STAT_EXTREME_TIME_WARP: usize = 12;
pub const STAT_PRICE_CHANGE: usize = 13;
pub const STAT_LIQUIDATE: usize = 14;
pub const STAT_LIQUIDATE_RECEIVE_A_TOKEN: usize = 15;
pub const STAT_PREPARE_LIQUIDATION: usize = 16;
pub const STAT_EXECUTE_LIQUIDATION: usize = 17;
pub const STAT_FULL_MULTI_ASSET_LIQUIDATION: usize = 18;
pub const STAT_CREATE_AND_LIQUIDATE: usize = 19;
pub const STAT_FLASH_LOAN: usize = 20;
pub const STAT_MULTI_ASSET_FLASH_LOAN: usize = 21;
pub const STAT_ZERO_AMOUNT_OPS: usize = 22;
pub const STAT_DUST_OPS: usize = 23;
pub const STAT_MAX_AMOUNT_OPS: usize = 24;
pub const STAT_PRICE_TO_ZERO: usize = 25;
pub const STAT_PRICE_TO_MAX: usize = 26;
pub const STAT_ORACLE_STALE: usize = 27;
pub const STAT_PRICE_VOLATILITY: usize = 28;
pub const STAT_PAUSE_PROTOCOL: usize = 29;
pub const STAT_UNPAUSE_PROTOCOL: usize = 30;
pub const STAT_COLLECT_RESERVES: usize = 31;
pub const STAT_SELF_LIQUIDATION_ATTEMPT: usize = 32;
pub const STAT_MULTI_ASSET_LIQUIDATION: usize = 33;
pub const STAT_RAPID_SUPPLY_WITHDRAW: usize = 34;
pub const STAT_RAPID_BORROW_REPAY: usize = 35;
pub const STAT_SANDWICH_PRICE_CHANGE: usize = 36;
pub const STAT_INTEREST_ACCRUAL_EXPLOIT: usize = 37;
pub const STAT_FIRST_DEPOSITOR_ATTACK: usize = 38;
pub const STAT_DONATION_ATTACK: usize = 39;
pub const STAT_UPDATE_RESERVE_CONFIG: usize = 40;
pub const STAT_UPDATE_RATE_STRATEGY: usize = 41;
pub const STAT_DROP_RESERVE: usize = 42;
pub const STAT_SET_CAPS: usize = 43;
pub const STAT_WHITELIST_BLACKLIST: usize = 44;
pub const STAT_ADMIN_TRANSFER: usize = 45;
pub const STAT_SWAP_COLLATERAL: usize = 46;
pub const STAT_TRANSFER_A_TOKEN: usize = 47;
pub const STAT_DRAIN_LIQUIDITY: usize = 48;
pub const STAT_MAX_UTILIZATION: usize = 49;
pub const STAT_BAD_DEBT_SCENARIO: usize = 50;
pub const STAT_RESERVE_STATE_OPS: usize = 51;
pub const STAT_FLASH_LOAN_WHILE_PAUSED: usize = 52;
pub const STAT_DANGEROUS_SEQUENCES: usize = 53;
/// Number of per-kind operation counters.
pub const NUM_OPERATION_STATS: usize = 54;

/// The counter that an operation is tallied under.
pub open spec fn operation_stat_slot(op: Operation) -> int {
    match op {
        Operation::Supply { .. } => STAT_SUPPLY as int,
        Operation::SupplyOnBehalf { .. } => STAT_SUPPLY_ON_BEHALF as int,
        Operation::Withdraw { .. } => STAT_WITHDRAW as int,
        Operation::WithdrawAll { .. } => STAT_WITHDRAW_ALL as int,
        Operation::WithdrawToRecipient { .. } => STAT_WITHDRAW_TO_RECIPIENT as int,
        Operation::Borrow { .. } => STAT_BORROW as int,
        Operation::BorrowToRecipient { .. } => STAT_BORROW_TO_RECIPIENT as int,
        Operation::Repay { .. } => STAT_REPAY as int,
        Operation::RepayAll { .. } => STAT_REPAY_ALL as int,
        Operation::RepayOnBehalf { .. } => STAT_REPAY_ON_BEHALF as int,
        Operation::SetCollateral { .. } => STAT_SET_COLLATERAL as int,
        Operation::TimeWarp { .. } => STAT_TIME_WARP as int,
        Operation::ExtremeTimeWarp { .. } => STAT_EXTREME_TIME_WARP as int,
        Operation::PriceChange { .. } => STAT_PRICE_CHANGE as int,
        Operation::Liquidate { .. } => STAT_LIQUIDATE as int,
        Operation::LiquidateReceiveAToken { .. } => STAT_LIQUIDATE_RECEIVE_A_TOKEN as int,
        Operation::PrepareLiquidation { .. } => STAT_PREPARE_LIQUIDATION as int,
        Operation::ExecuteLiquidation { .. } => STAT_EXECUTE_LIQUIDATION as int,
        Operation::FullMultiAssetLiquidation { .. } => STAT_FULL_MULTI_ASSET_LIQUIDATION as int,
        Operation::CreateAndLiquidate { .. } => STAT_CREATE_AND_LIQUIDATE as int,
        Operation::FlashLoan { .. } => STAT_FLASH_LOAN as int,
        Operation::MultiAssetFlashLoan { .. } => STAT_MULTI_ASSET_FLASH_LOAN as int,
        Operation::ZeroAmountSupply { .. } | Operation::ZeroAmountBorrow { .. } | Operation::ZeroAmountWithdraw { .. } | Operation::ZeroAmountRepay { .. } => STAT_ZERO_AMOUNT_OPS as int,
        Operation::DustSupply { .. } | Operation::DustBorrow { .. } | Operation::DustWithdraw { .. } | Operation::DustRepay { .. } => STAT_DUST_OPS as int,
        Operation::MaxAmountSupply { .. } | Operation::MaxAmountBorrow { .. } => STAT_MAX_AMOUNT_OPS as int,
        Operation::PriceToZero { .. } => STAT_PRICE_TO_ZERO as int,
        Operation::PriceToMax { .. } => STAT_PRICE_TO_MAX as int,
        Operation::OracleStale { .. } => STAT_ORACLE_STALE as int,
        Operation::PriceVolatility { .. } => STAT_PRICE_VOLATILITY as int,
        Operation::PauseProtocol => STAT_PAUSE_PROTOCOL as int,
        Operation::UnpauseProtocol => STAT_UNPAUSE_PROTOCOL as int,
        Operation::CollectProtocolReserves { .. } => STAT_COLLECT_RESERVES as int,
        Operation::SelfLiquidationAttempt { .. } => STAT_SELF_LIQUIDATION_ATTEMPT as int,
        Operation::MultiAssetLiquidation { .. } => STAT_MULTI_ASSET_LIQUIDATION as int,
        Operation::RapidSupplyWithdraw { .. } => STAT_RAPID_SUPPLY_WITHDRAW as int,
        Operation::RapidBorrowRepay { .. } => STAT_RAPID_BORROW_REPAY as int,
        Operation::SandwichPriceChange { .. } => STAT_SANDWICH_PRICE_CHANGE as int,
        Operation::InterestAccrualExploit { .. } => STAT_INTEREST_ACCRUAL_EXPLOIT as int,
        Operation::FirstDepositorAttack { .. } => STAT_FIRST_DEPOSITOR_ATTACK as int,
        Operation::DonationAttack { .. } => STAT_DONATION_ATTACK as int,
        Operation::UpdateReserveConfiguration { .. } => STAT_UPDATE_RESERVE_CONFIG as int,
        Operation::UpdateReserveRateStrategy { .. } => STAT_UPDATE_RATE_STRATEGY as int,
        Operation::DropReserve { .. } => STAT_DROP_RESERVE as int,
        Operation::SetReserveSupplyCap { .. } | Operation::SetReserveBorrowCap { .. } | Operation::SetReserveDebtCeiling { .. } => STAT_SET_CAPS as int,
        Operation::SetReserveWhitelist { .. } | Operation::SetReserveBlacklist { .. } | Operation::SetLiquidationWhitelist { .. } | Operation::SetLiquidationBlacklist { .. } => STAT_WHITELIST_BLACKLIST as int,
        Operation::ProposePoolAdmin { .. } | Operation::AcceptPoolAdmin { .. } => STAT_ADMIN_TRANSFER as int,
        Operation::SwapCollateral { .. } => STAT_SWAP_COLLATERAL as int,
        Operation::TransferAToken { .. } => STAT_TRANSFER_A_TOKEN as int,
        Operation::DrainLiquidity { .. } => STAT_DRAIN_LIQUIDITY as int,
        Operation::MaxUtilization { .. } => STAT_MAX_UTILIZATION as int,
        Operation::BadDebtScenario { .. } => STAT_BAD_DEBT_SCENARIO as int,
        Operation::SetReserveActive { .. } | Operation::SetReserveFrozen { .. } => STAT_RESERVE_STATE_OPS as int,
        Operation::FlashLoanWhilePaused { .. } => STAT_FLASH_LOAN_WHILE_PAUSED as int,
        Operation::BorrowMaxWithdrawAttempt { .. } | Operation::PriceCrashLiquidation { .. } => STAT_DANGEROUS_SEQUENCES as int,
    }
}

/// The counter that an operation is tallied under.
pub fn stat_slot(op: &Operation) -> (slot: usize)
    ensures
        slot == operation_stat_slot(*op),
        slot < NUM_OPERATION_STATS,
{
    match op {
        Operation::Supply { .. } => STAT_SUPPLY,
        Operation::SupplyOnBehalf { .. } => STAT_SUPPLY_ON_BEHALF,
        Operation::Withdraw { .. } => STAT_WITHDRAW,
        Operation::WithdrawAll { .. } => STAT_WITHDRAW_ALL,
        Operation::WithdrawToRecipient { .. } => STAT_WITHDRAW_TO_RECIPIENT,
        Operation::Borrow { .. } => STAT_BORROW,
        Operation::BorrowToRecipient { .. } => STAT_BORROW_TO_RECIPIENT,
        Operation::Repay { .. } => STAT_REPAY,
        Operation::RepayAll { .. } => STAT_REPAY_ALL,
        Operation::RepayOnBehalf { .. } => STAT_REPAY_ON_BEHALF,
        Operation::SetCollateral { .. } => STAT_SET_COLLATERAL,
        Operation::TimeWarp { .. } => STAT_TIME_WARP,
        Operation::ExtremeTimeWarp { .. } => STAT_EXTREME_TIME_WARP,
        Operation::PriceChange { .. } => STAT_PRICE_CHANGE,
        Operation::Liquidate { .. } => STAT_LIQUIDATE,
        Operation::LiquidateReceiveAToken { .. } => STAT_LIQUIDATE_RECEIVE_A_TOKEN,
        Operation::PrepareLiquidation { .. } => STAT_PREPARE_LIQUIDATION,
        Operation::ExecuteLiquidation { .. } => STAT_EXECUTE_LIQUIDATION,
        Operation::FullMultiAssetLiquidation { .. } => STAT_FULL_MULTI_ASSET_LIQUIDATION,
        Operation::CreateAndLiquidate { .. } => STAT_CREATE_AND_LIQUIDATE,
        Operation::FlashLoan { .. } => STAT_FLASH_LOAN,
        Operation::MultiAssetFlashLoan { .. } => STAT_MULTI_ASSET_FLASH_LOAN,
        Operation::ZeroAmountSupply { .. } | Operation::ZeroAmountBorrow { .. } | Operation::ZeroAmountWithdraw { .. } | Operation::ZeroAmountRepay { .. } => STAT_ZERO_AMOUNT_OPS,
        Operation::DustSupply { .. } | Operation::DustBorrow { .. } | Operation::DustWithdraw { .. } | Operation::DustRepay { .. } => STAT_DUST_OPS,
        Operation::MaxAmountSupply { .. } | Operation::MaxAmountBorrow { .. } => STAT_MAX_AMOUNT_OPS,
        Operation::PriceToZero { .. } => STAT_PRICE_TO_ZERO,
        Operation::PriceToMax { .. } => STAT_PRICE_TO_MAX,
        Operation::OracleStale { .. } => STAT_ORACLE_STALE,
        Operation::PriceVolatility { .. } => STAT_PRICE_VOLATILITY,
        Operation::PauseProtocol => STAT_PAUSE_PROTOCOL,
        Operation::UnpauseProtocol => STAT_UNPAUSE_PROTOCOL,
        Operation::CollectProtocolReserves { .. } => STAT_COLLECT_RESERVES,
        Operation::SelfLiquidationAttempt { .. } => STAT_SELF_LIQUIDATION_ATTEMPT,
        Operation::MultiAssetLiquidation { .. } => STAT_MULTI_ASSET_LIQUIDATION,
        Operation::RapidSupplyWithdraw { .. } => STAT_RAPID_SUPPLY_WITHDRAW,
        Operation::RapidBorrowRepay { .. } => STAT_RAPID_BORROW_REPAY,
        Operation::SandwichPriceChange { .. } => STAT_SANDWICH_PRICE_CHANGE,
        Operation::InterestAccrualExploit { .. } => STAT_INTEREST_ACCRUAL_EXPLOIT,
        Operation::FirstDepositorAttack { .. } => STAT_FIRST_DEPOSITOR_ATTACK,
        Operation::DonationAttack { .. } => STAT_DONATION_ATTACK,
        Operation::UpdateReserveConfiguration { .. } => STAT_UPDATE_RESERVE_CONFIG,
        Operation::UpdateReserveRateStrategy { .. } => STAT_UPDATE_RATE_STRATEGY,
        Operation::DropReserve { .. } => STAT_DROP_RESERVE,
        Operation::SetReserveSupplyCap { .. } | Operation::SetReserveBorrowCap { .. } | Operation::SetReserveDebtCeiling { .. } => STAT_SET_CAPS,
        Operation::SetReserveWhitelist { .. } | Operation::SetReserveBlacklist { .. } | Operation::SetLiquidationWhitelist { .. } | Operation::SetLiquidationBlacklist { .. } => STAT_WHITELIST_BLACKLIST,
        Operation::ProposePoolAdmin { .. } | Operation::AcceptPoolAdmin { .. } => STAT_ADMIN_TRANSFER,
        Operation::SwapCollateral { .. } => STAT_SWAP_COLLATERAL,
        Operation::TransferAToken { .. } => STAT_TRANSFER_A_TOKEN,
        Operation::DrainLiquidity { .. } => STAT_DRAIN_LIQUIDITY,
        Operation::MaxUtilization { .. } => STAT_MAX_UTILIZATION,
        Operation::BadDebtScenario { .. } => STAT_BAD_DEBT_SCENARIO,
        Operation::SetReserveActive { .. } | Operation::SetReserveFrozen { .. } => STAT_RESERVE_STATE_OPS,
        Operation::FlashLoanWhilePaused { .. } => STAT_FLASH_LOAN_WHILE_PAUSED,
        Operation::BorrowMaxWithdrawAttempt { .. } | Operation::PriceCrashLiquidation { .. } => STAT_DANGEROUS_SEQUENCES,
    }
}

/// Sum of the first `k` counters.
pub open spec fn counter_sum(c: Seq<u64>, k: int) -> int
    decreases k,
{
    if k <= 0 {
        0
    } else {
        counter_sum(c, k - 1) + c[k - 1]
    }
}

proof fn lemma_counter_sum_zero(c: Seq<u64>, k: int)
    requires
        0 <= k <= c.len(),
        forall|i: int| 0 <= i < k ==> c[i] == 0,
    ensures
        counter_sum(c, k) == 0,
    decreases k,
{
    if k > 0 {
        lemma_counter_sum_zero(c, k - 1);
    }
}

proof fn lemma_counter_sum_update(c: Seq<u64>, i: int, v: u64, k: int)
    requires
        0 <= i < c.len(),
        0 <= k <= c.len(),
    ensures
        counter_sum(c.update(i, v), k) == counter_sum(c, k) + (if i < k {
            v - c[i]
        } else {
            0
        }),
        i < k ==> c[i] <= counter_sum(c, k),
        counter_sum(c, k) >= 0,
    decreases k,
{
    if k > 0 {
        lemma_counter_sum_update(c, i, v, k - 1);
    }
}

/// How often each kind of operation was generated, in total and how often
/// one succeeded.  Counters wrap around on overflow.
pub struct OperationStats {
    /// One counter per kind of operation, indexed by the `STAT_*` constants.
    pub counts: Vec<u64>,
    pub total_ops: u64,
    pub successful_ops: u64,
}

impl OperationStats {
    /// All counters at zero.
    pub fn new() -> (s: Self)
        ensures
            s.counts@.len() == NUM_OPERATION_STATS,
            forall|i: int| 0 <= i < NUM_OPERATION_STATS ==> s.counts@[i] == 0,
            s.total_ops == 0,
            s.successful_ops == 0,
            counter_sum(s.counts@, NUM_OPERATION_STATS as int) == s.total_ops,
            (s.total_ops, s.successful_ops, s.counts@) == counters_after(Seq::empty()),
    {
        let s = OperationStats {
            counts: vec![0u64; NUM_OPERATION_STATS],
            total_ops: 0,
            successful_ops: 0,
        };
        proof {
            lemma_counter_sum_zero(s.counts@, NUM_OPERATION_STATS as int);
            assert(s.counts@ == counters_after(Seq::empty()).2);
        }
        s
    }

    /// Counts one operation, and one success if it succeeded.  While no
    /// counter wraps, the per-kind counters keep summing to the total and
    /// the successes stay at most the total.
    pub fn record_operation(&mut self, op: &Operation, success: bool)
        requires
            old(self).counts@.len() == NUM_OPERATION_STATS,
        ensures
            final(self).total_ops == old(self).total_ops.wrapping_add(1),
            final(self).successful_ops == if success {
                old(self).successful_ops.wrapping_add(1)
            } else {
                old(self).successful_ops
            },
            final(self).counts@ == old(self).counts@.update(
                operation_stat_slot(*op),
                old(self).counts@[operation_stat_slot(*op)].wrapping_add(1),
            ),
            counter_sum(old(self).counts@, NUM_OPERATION_STATS as int) == old(self).total_ops
                && old(self).total_ops < u64::MAX ==> counter_sum(
                final(self).counts@,
                NUM_OPERATION_STATS as int,
            ) == final(self).total_ops,
            old(self).successful_ops <= old(self).total_ops && old(self).total_ops < u64::MAX
                ==> final(self).successful_ops <= final(self).total_ops,
            forall|h: Seq<(Operation, bool)>|
                (old(self).total_ops, old(self).successful_ops, old(self).counts@) == #[trigger] counters_after(h)
                    ==> (final(self).total_ops, final(self).successful_ops, final(self).counts@)
                    == counters_after(h.push((*op, success))),
    {
        let ghost before = self.counts@;
        self.total_ops = self.total_ops.wrapping_add(1);
        if success {
            self.successful_ops = self.successful_ops.wrapping_add(1);
        }
        let slot = stat_slot(op);
        let c = self.counts[slot].wrapping_add(1);
        self.counts.set(slot, c);
        proof {
            lemma_counter_sum_update(before, slot as int, c, NUM_OPERATION_STATS as int);
            assert forall|h: Seq<(Operation, bool)>|
                (old(self).total_ops, old(self).successful_ops, before) == #[trigger] counters_after(h)
                    implies (self.total_ops, self.successful_ops, self.counts@) == counters_after(
                h.push((*op, success)),
            ) by {
                assert(h.push((*op, success)).drop_last() == h);
            }
        }
    }
}

/// The counters that `record_operation` of each entry of `h` in turn
/// leaves, starting from those of `OperationStats::new`: the total, the
/// successes, and one counter per kind.
pub open spec fn counters_after(h: Seq<(Operation, bool)>) -> (u64, u64, Seq<u64>)
    decreases h.len(),
{
    if h.len() == 0 {
        (0u64, 0u64, Seq::new(NUM_OPERATION_STATS as nat, |i: int| 0u64))
    } else {
        let (total, successful, counts) = counters_after(h.drop_last());
        let (op, success) = h.last();
        let slot = operation_stat_slot(op);
        (
            total.wrapping_add(1),
            if success {
                successful.wrapping_add(1)
            } else {
                successful
            },
            counts.update(slot, counts[slot].wrapping_add(1)),
        )
    }
}

/// How many entries of `h` succeeded.
pub open spec fn successes_in(h: Seq<(Operation, bool)>) -> int
    decreases h.len(),
{
    if h.len() == 0 {
        0
    } else {
        successes_in(h.drop_last()) + if h.last().1 {
            1int
        } else {
            0int
        }
    }
}

/// How many entries of `h` are tallied under counter `k`.
pub open spec fn kind_count(h: Seq<(Operation, bool)>, k: int) -> int
    decreases h.len(),
{
    if h.len() == 0 {
        0
    } else {
        kind_count(h.drop_last(), k) + if operation_stat_slot(h.last().0) == k {
            1int
        } else {
            0int
        }
    }
}

/// Counting a history of operations from fresh counters, as long as fewer
/// than `u64::MAX` are counted: the total is the number of operations, the
/// successes are the number that succeeded, each kind's counter is the
/// number of operations of that kind, and the kinds' counters sum to the
/// total.
pub proof fn lemma_counters_after(h: Seq<(Operation, bool)>)
    requires
        h.len() < u64::MAX,
    ensures
        counters_after(h).0 == h.len(),
        counters_after(h).1 == successes_in(h),
        counters_after(h).2.len() == NUM_OPERATION_STATS,
        forall|k: int| 0 <= k < NUM_OPERATION_STATS ==> #[trigger] counters_after(h).2[k] == kind_count(h, k),
        counter_sum(counters_after(h).2, NUM_OPERATION_STATS as int) == h.len(),
    decreases h.len(),
{
    if h.len() == 0 {
        lemma_counter_sum_zero(counters_after(h).2, NUM_OPERATION_STATS as int);
    } else {
        let prev = h.drop_last();
        lemma_counters_after(prev);
        lemma_successes_bounded(prev);
        let (total, successful, counts) = counters_after(prev);
        let (op, success) = h.last();
        let slot = operation_stat_slot(op);
        assert(0 <= slot < NUM_OPERATION_STATS) by {
            lemma_slot_in_range(op);
        }
        lemma_kind_count_bounded(prev, slot);
        assert(counts[slot] == kind_count(prev, slot));
        assert(counts[slot] + 1 <= u64::MAX);
        lemma_counter_sum_update(counts, slot, (counts[slot] + 1) as u64, NUM_OPERATION_STATS as int);
        assert forall|k: int| 0 <= k < NUM_OPERATION_STATS implies #[trigger] counters_after(h).2[k]
            == kind_count(h, k) by {
            assert(counts[k] == kind_count(prev, k));
        }
    }
}

proof fn lemma_slot_in_range(op: Operation)
    ensures
        0 <= operation_stat_slot(op) < NUM_OPERATION_STATS,
{
}

proof fn lemma_successes_bounded(h: Seq<(Operation, bool)>)
    ensures
        0 <= successes_in(h) <= h.len(),
    decreases h.len(),
{
    if h.len() > 0 {
        lemma_successes_bounded(h.drop_last());
    }
}

proof fn lemma_kind_count_bounded(h: Seq<(Operation, bool)>, k: int)
    ensures
        0 <= kind_count(h, k) <= h.len(),
    decreases h.len(),
{
    if h.len() > 0 {
        lemma_kind_count_bounded(h.drop_last(), k);
    }
}

/// Whether the fuzz targets keep statistics.
pub fn stats_enabled() -> (r: bool)
    ensures
        r,
{
    true
}

/// The invariant checks whose executions are counted.
#[derive(Clone, Copy, Debug, PartialEq, Eq, Structural)]
pub enum InvariantType {
    OperationInvariants,
    ProtocolInvariants,
    ProtocolSolvency,
    TreasuryAccrual,
    UtilizationInvariants,
    LiquidationInvariants,
    IndexMonotonicity,
    AccruedTreasuryMonotonicity,
    DebtCeilingInvariants,
    ReserveFactorInvariants,
    InterestInvariants,
    InterestMath,
    FeeCalculationInvariants,
    FlashLoanPremium,
    FlashLoanRepayment,
    LiquidationFairness,
    NoRateManipulation,
    OracleSanity,
    NoValueExtraction,
    AdminCannotSteal,
    FinalInvariants,
    CumulativeRounding,
    LiquidationBonusInvariants,
    PauseStateInvariant,
    AccessControlInvariants,
    ParameterBounds,
    FailedOperationUnchanged,
    DustAccumulation,
}

/// Number of invariant kinds.
pub const NUM_INVARIANT_TYPES: usize = 28;

/// The counter of an invariant kind.
pub open spec fn invariant_slot(t: InvariantType) -> int {
    match t {
        InvariantType::OperationInvariants => 0,
        InvariantType::ProtocolInvariants => 1,
        InvariantType::ProtocolSolvency => 2,
        InvariantType::TreasuryAccrual => 3,
        InvariantType::UtilizationInvariants => 4,
        InvariantType::LiquidationInvariants => 5,
        InvariantType::IndexMonotonicity => 6,
        InvariantType::AccruedTreasuryMonotonicity => 7,
        InvariantType::DebtCeilingInvariants => 8,
        InvariantType::ReserveFactorInvariants => 9,
        InvariantType::InterestInvariants => 10,
        InvariantType::InterestMath => 11,
        InvariantType::FeeCalculationInvariants => 12,
        InvariantType::FlashLoanPremium => 13,
        InvariantType::FlashLoanRepayment => 14,
        InvariantType::LiquidationFairness => 15,
        InvariantType::NoRateManipulation => 16,
        InvariantType::OracleSanity => 17,
        InvariantType::NoValueExtraction => 18,
        InvariantType::AdminCannotSteal => 19,
        InvariantType::FinalInvariants => 20,
        InvariantType::CumulativeRounding => 21,
        InvariantType::LiquidationBonusInvariants => 22,
        InvariantType::PauseStateInvariant => 23,
        InvariantType::AccessControlInvariants => 24,
        InvariantType::ParameterBounds => 25,
        InvariantType::FailedOperationUnchanged => 26,
        InvariantType::DustAccumulation => 27,
    }
}

/// How often each invariant check ran.  Counters wrap around on overflow.
pub struct InvariantStats {
    /// One counter per invariant kind, in the order of `InvariantType`.
    pub counts: Vec<u64>,
}

impl InvariantStats {
    /// All counters at zero.
    pub fn new() -> (s: Self)
        ensures
            s.counts@.len() == NUM_INVARIANT_TYPES,
            forall|i: int| 0 <= i < NUM_INVARIANT_TYPES ==> s.counts@[i] == 0,
    {
        InvariantStats { counts: vec![0u64; NUM_INVARIANT_TYPES] }
    }

    /// Counts one execution of the given invariant check.
    pub fn record(&mut self, kind: InvariantType)
        requires
            old(self).counts@.len() == NUM_INVARIANT_TYPES,
        ensures
            final(self).counts@ == old(self).counts@.update(
                invariant_slot(kind),
                old(self).counts@[invariant_slot(kind)].wrapping_add(1),
            ),
    {
        let slot: usize = match kind {
            InvariantType::OperationInvariants => 0,
            InvariantType::ProtocolInvariants => 1,
            InvariantType::ProtocolSolvency => 2,
            InvariantType::TreasuryAccrual => 3,
            InvariantType::UtilizationInvariants => 4,
            InvariantType::LiquidationInvariants => 5,
            InvariantType::IndexMonotonicity => 6,
            InvariantType::AccruedTreasuryMonotonicity => 7,
            InvariantType::DebtCeilingInvariants => 8,
            InvariantType::ReserveFactorInvariants => 9,
            InvariantType::InterestInvariants => 10,
            InvariantType::InterestMath => 11,
            InvariantType::FeeCalculationInvariants => 12,
            InvariantType::FlashLoanPremium => 13,
            InvariantType::FlashLoanRepayment => 14,
            InvariantType::LiquidationFairness => 15,
            InvariantType::NoRateManipulation => 16,
            InvariantType::OracleSanity => 17,
            InvariantType::NoValueExtraction => 18,
            InvariantType::AdminCannotSteal => 19,
            InvariantType::FinalInvariants => 20,
            InvariantType::CumulativeRounding => 21,
            InvariantType::LiquidationBonusInvariants => 22,
            InvariantType::PauseStateInvariant => 23,
            InvariantType::AccessControlInvariants => 24,
            InvariantType::ParameterBounds => 25,
            InvariantType::FailedOperationUnchanged => 26,
            InvariantType::DustAccumulation => 27,
        };
        let c = self.counts[slot].wrapping_add(1);
        self.counts.set(slot, c);
    }
}

} // verus!
