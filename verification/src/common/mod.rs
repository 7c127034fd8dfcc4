//! Shared pieces of the multi-asset protocol fuzzer: constants, the operation
//! model, the simulated pool state, statistics, snapshots and the protocol
//! invariant checks.
pub mod constants;
pub mod operations;
pub mod simulation;
pub mod stats;
pub mod snapshot;
pub mod invariants;
pub mod conservation;
pub mod economics;
pub mod ledger;
pub mod executor;
pub mod dispatch;
pub mod generation;
pub mod mocks;
