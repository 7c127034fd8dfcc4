//! The flash-loan receivers the multi-asset fuzzer registers: the amounts
//! each one sends back into the router from its callback, and which of its
//! attempts must fail.
use vstd::prelude::*;
use crate::common::constants::WAD;

pub use crate::targets::views::MockReflector;

verus! {

/// Receiver that accepts every flash loan and does nothing.
#[derive(Clone, Copy, Debug)]
pub struct MockFlashLoanReceiver;

impl MockFlashLoanReceiver {
    /// The callback's answer: always `true`.
    pub fn execute_operation(&self) -> (ok: bool)
        ensures
            ok,
    {
        true
    }
}

/// Receiver that tries to re-enter the router from the callback.
#[derive(Clone, Copy, Debug)]
pub struct ReentrantFlashLoanReceiver;

/// What the re-entrant receiver attempts with the first asset's amount.
#[derive(Clone, Copy, Debug, PartialEq, Eq, Structural)]
pub struct ReentryPlan {
    /// Borrow during the callback
    pub borrow: u128,
    /// Nested flash loan of the same asset
    pub nested_flash_loan: u128,
    /// Withdrawal during the callback
    pub withdraw: u128,
}

impl ReentrantFlashLoanReceiver {
    /// Half the loan as a borrow, a quarter as a nested flash loan and a
    /// quarter as a withdrawal.
    pub fn plan(&self, amount: u128) -> (p: ReentryPlan)
        ensures
            p.borrow == amount / 2,
            p.nested_flash_loan == amount / 4,
            p.withdraw == amount / 4,
    {
        ReentryPlan { borrow: amount / 2, nested_flash_loan: amount / 4, withdraw: amount / 4 }
    }

    /// Re-entry must fail: neither the borrow nor the nested flash loan may
    /// succeed.
    pub fn outcome_ok(&self, borrow_succeeded: bool, nested_flash_loan_succeeded: bool) -> (ok: bool)
        ensures
            ok == (!borrow_succeeded && !nested_flash_loan_succeeded),
    {
        !borrow_succeeded && !nested_flash_loan_succeeded
    }
}

/// Receiver that tries to repay and liquidate from the callback.
#[derive(Clone, Copy, Debug)]
pub struct ReentrantRepayLiquidationReceiver;

/// What the repay-and-liquidate receiver attempts.
#[derive(Clone, Copy, Debug, PartialEq, Eq, Structural)]
pub struct RepayLiquidationPlan {
    /// Repayment during the callback
    pub repay: u128,
    /// Debt covered by each liquidation attempt (of a stranger, of itself,
    /// and in a prepared two-step liquidation)
    pub liquidation: u128,
    /// Deadline of the two-step liquidation
    pub deadline: u64,
    /// Amount approved to the router for repayment of the loan
    pub approval: u128,
}

impl ReentrantRepayLiquidationReceiver {
    /// Repay half the loan, liquidate a quarter, a two-step liquidation due
    /// 300 seconds from now, and approve the loan plus premium.
    pub fn plan(&self, amount: u128, premium: u128, now: u64) -> (p: RepayLiquidationPlan)
        requires
            amount + premium <= u128::MAX,
            now + 300 <= u64::MAX,
        ensures
            p.repay == amount / 2,
            p.liquidation == amount / 4,
            p.deadline == now + 300,
            p.approval == amount + premium,
    {
        RepayLiquidationPlan {
            repay: amount / 2,
            liquidation: amount / 4,
            deadline: now + 300,
            approval: amount + premium,
        }
    }

    /// Liquidating itself from the callback must fail.
    pub fn outcome_ok(&self, self_liquidation_succeeded: bool) -> (ok: bool)
        ensures
            ok == !self_liquidation_succeeded,
    {
        !self_liquidation_succeeded
    }
}

/// Receiver that keeps the loan and sends its balance to the initiator.
#[derive(Clone, Copy, Debug)]
pub struct NonRepayingFlashLoanReceiver;

impl NonRepayingFlashLoanReceiver {
    /// The amount it sends away: its whole balance, when it has any.
    pub fn drain_amount(&self, balance: i128) -> (r: Option<i128>)
        ensures
            r == (if balance > 0 {
                Some(balance)
            } else {
                None
            }),
    {
        if balance > 0 {
            Some(balance)
        } else {
            None
        }
    }
}

/// Receiver that changes pool state from the callback.
#[derive(Clone, Copy, Debug)]
pub struct StateManipulatingReceiver;

/// What the state-manipulating receiver attempts.
#[derive(Clone, Copy, Debug, PartialEq, Eq, Structural)]
pub struct ManipulationPlan {
    /// Supply of the loan
    pub supply: u128,
    /// Borrow after a successful supply
    pub borrow: u128,
    /// Withdrawal after a successful supply
    pub withdraw: u128,
    /// Amount approved to the router for repayment of the loan
    pub approval: u128,
}

impl StateManipulatingReceiver {
    /// Supply the loan, then borrow half of it and withdraw it all, and
    /// approve the loan plus premium.
    pub fn plan(&self, amount: u128, premium: u128) -> (p: ManipulationPlan)
        requires
            amount + premium <= u128::MAX,
        ensures
            p.supply == amount,
            p.borrow == amount / 2,
            p.withdraw == amount,
            p.approval == amount + premium,
    {
        ManipulationPlan { supply: amount, borrow: amount / 2, withdraw: amount, approval: amount + premium }
    }

    /// Pausing the protocol from the callback (as a non-admin) must fail.
    pub fn outcome_ok(&self, pause_succeeded: bool) -> (ok: bool)
        ensures
            ok == !pause_succeeded,
    {
        !pause_succeeded
    }
}

/// Receiver that tries to profit from the loan inside the callback.
#[derive(Clone, Copy, Debug)]
pub struct OracleManipulatingReceiver;

/// What the exploiting receiver attempts.
#[derive(Clone, Copy, Debug, PartialEq, Eq, Structural)]
pub struct ExploitPlan {
    /// Borrow of ten times the loan
    pub excessive_borrow: u128,
    /// Debt covered by a self-liquidation attempt
    pub self_liquidation: u128,
    /// Supply of the loan
    pub supply: u128,
    /// Withdrawal of twice the supply
    pub over_withdraw: u128,
    /// Withdrawal of the supply
    pub withdraw: u128,
    /// Amount approved to the router for repayment of the loan
    pub approval: u128,
}

impl OracleManipulatingReceiver {
    /// Borrow ten times the loan, liquidate half of it on itself, supply it,
    /// withdraw twice and then once the supply, and approve the loan plus
    /// premium.
    pub fn plan(&self, amount: u128, premium: u128) -> (p: ExploitPlan)
        requires
            amount * 10 <= u128::MAX,
            amount + premium <= u128::MAX,
        ensures
            p.excessive_borrow == amount * 10,
            p.self_liquidation == amount / 2,
            p.supply == amount,
            p.over_withdraw == amount * 2,
            p.withdraw == amount,
            p.approval == amount + premium,
    {
        ExploitPlan {
            excessive_borrow: amount * 10,
            self_liquidation: amount / 2,
            supply: amount,
            over_withdraw: amount * 2,
            withdraw: amount,
            approval: amount + premium,
        }
    }

    /// A borrow of ten times the loan that went through must leave the
    /// account healthy (health factor at least 1) or debt-free.
    pub fn excessive_borrow_ok(&self, health_factor: u128, total_debt_base: u128) -> (ok: bool)
        ensures
            ok == (health_factor >= WAD || total_debt_base == 0),
    {
        health_factor >= WAD || total_debt_base == 0
    }

    /// A self-liquidation and a withdrawal of more than was supplied must
    /// both fail.
    pub fn outcome_ok(&self, self_liquidation_succeeded: bool, over_withdraw_succeeded: bool) -> (ok: bool)
        ensures
            ok == (!self_liquidation_succeeded && !over_withdraw_succeeded),
    {
        !self_liquidation_succeeded && !over_withdraw_succeeded
    }
}

} // verus!
