//! Cross-border remittance core: the transaction state machine, the ledger
//! with conditional (compare-and-swap) status writes, the exchange-rate cache
//! and the reconciliation of provider status reports.

pub mod config;
pub mod errors;
pub mod exchange_rate;
pub mod providers;
pub mod remittance;
pub mod repository;
pub mod sources;
pub mod text;
pub mod transaction;
pub mod webhooks;
