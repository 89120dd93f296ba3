pub mod compliance;
pub mod exchange_rate;
pub mod transaction;
