//! A small payments ledger: transactions (deposits, withdrawals and the
//! dispute lifecycle) are routed to per-client accounts, and every account
//! keeps an exact running balance that can be read off as a snapshot.

pub mod account;
pub mod amount;
pub mod cli;
pub mod laws;
pub mod model;
pub mod portfolio;
pub mod transaction;

pub use account::Account;
pub use cli::get_filename;
pub use account::Snapshot;
pub use amount::Amount;
pub use portfolio::Portfolio;
pub use transaction::ClientID;
pub use transaction::Error;
pub use transaction::Transaction;
pub use transaction::TransactionID;
pub use transaction::TransactionType;
