//! Input types and invariant logic of the individual fuzz targets.  Each
//! target reads protocol state through the contracts' clients; the checks here
//! take what those reads returned as plain values.
pub mod views;
pub mod lending_ops;
pub mod liquidation;
pub mod economic;
pub mod flash_loan;
pub mod price_scenarios;
pub mod multi_asset;
pub mod reserve_config;
pub mod admin_ops;
pub mod admin_transfer;
pub mod auth_boundaries;
