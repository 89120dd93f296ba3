pub mod common;
pub mod cross_border;
pub mod error;
pub mod transaction;

pub use common::validate_transaction;
pub use error::DbError;
