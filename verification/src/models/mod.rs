pub mod transaction;

pub use transaction::TransactionStatus;
