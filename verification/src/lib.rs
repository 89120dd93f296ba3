//! Verified core of a payment service: currency and country rules,
//! transfer validation, compliance screening, exchange-rate rules, retry
//! and rate-limit state machines, and token bookkeeping.

pub mod db;
pub mod error;
pub mod handlers;
pub mod middleware;
pub mod models;
pub mod services;
pub mod utils;

pub use error::AppError;
