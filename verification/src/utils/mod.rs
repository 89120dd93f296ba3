pub mod currency_mapping;
pub mod retry;
pub mod table;
pub mod text;
