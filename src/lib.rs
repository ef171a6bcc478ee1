//! A per-account ledger that replays deposits, withdrawals, disputes,
//! resolutions and chargebacks, with its balance rules proved.

pub mod client;
pub mod decimal;
pub mod errors;
pub mod laws;
pub mod ledger;
pub mod types;

pub use client::Client;
pub use decimal::DecimalType;
pub use errors::TransactionProcessingError;
pub use ledger::{AccountSnapshot, Ledger};
pub use types::{
    BalanceChangeEntry, BalanceChangeEntryStatus, BalanceChangeEntryType, Transaction,
    TransactionType,
};
