//! A batch ledger-reconciliation engine: replays an ordered log of
//! deposit/withdrawal/dispute/resolve/chargeback events against per-client
//! accounts, with exact fixed-point decimal arithmetic.

pub mod amount;
pub mod client_account;
pub mod engine;
pub mod laws;
pub mod transaction;

pub use amount::from_units;
pub use client_account::ClientAccount;
pub use engine::PaymentEngine;
pub use transaction::Transaction;
pub use transaction::TransactionRecord;
pub use transaction::TransactionType;
