use payment_system::db::error::DbError;
use payment_system::error::AppError;
use payment_system::models::transaction::{validate_currency, TransactionStatus};
use payment_system::services::exchange_rate::{
    is_cached_rate_fresh, is_identity_conversion, quoted_pair, rate_board_currencies, rate_not_found, QuotedPair,
};

#[test]
fn transaction_labels_round_trip() {
    for s in [TransactionStatus::Pending, TransactionStatus::Completed, TransactionStatus::Failed] {
        assert_eq!(TransactionStatus::from_str(&s.to_string()), Ok(s));
    }
    assert_eq!(TransactionStatus::Completed.as_str(), "COMPLETED");
    assert_eq!(TransactionStatus::from_str("DONE"), Err("Invalid status: DONE".to_string()));
    assert_eq!(TransactionStatus::from_stored("DONE"), TransactionStatus::Failed);
    assert_eq!(TransactionStatus::from_stored("PENDING"), TransactionStatus::Pending);
}

#[test]
fn accounts_open_in_the_six_supported_currencies() {
    for c in ["INR", "USD", "EUR", "GBP", "SGD", "AED"] {
        assert!(validate_currency(c).is_ok());
    }
    assert_eq!(validate_currency("JPY").unwrap_err().code, "only_inr_allowed");
    assert!(validate_currency("inr").is_err());
    assert!(validate_currency("").is_err());
}

#[test]
fn database_error_texts() {
    assert_eq!(DbError::RusqliteError("disk I/O".to_string()).message(), "Database error: disk I/O");
    assert_eq!(DbError::Custom("Insufficient balance".to_string()).message(), "Insufficient balance");
    assert_eq!(DbError::from("x".to_string()), DbError::Custom("x".to_string()));
}

#[test]
fn application_errors_hide_internal_details() {
    assert_eq!(
        AppError::Database("constraint failed".to_string()).status_and_message(),
        (500, "Internal server error".to_string())
    );
    assert_eq!(AppError::Auth("Invalid token".to_string()).status_and_message(), (401, "Invalid token".to_string()));
    assert_eq!(AppError::RateLimit.status_and_message(), (429, "Rate limit exceeded".to_string()));
    assert_eq!(AppError::ValidationError("bad".to_string()).status_and_message(), (400, "bad".to_string()));
    assert_eq!(
        AppError::ExternalService("timeout".to_string()).status_and_message(),
        (502, "External service error".to_string())
    );
    assert_eq!(AppError::NotFound("user".to_string()).status_and_message(), (404, "user".to_string()));
    assert_eq!(AppError::NotFound("user".to_string()).message(), "Not found: user");
    assert_eq!(AppError::ValidationError("bad".to_string()).message(), "Invalid input: bad");
}

#[test]
fn quoted_pairs() {
    assert_eq!(quoted_pair("USD", "EUR"), Some(QuotedPair::UsdEur));
    assert_eq!(quoted_pair("INR", "GBP"), Some(QuotedPair::InrGbp));
    assert_eq!(quoted_pair("EUR", "GBP"), None);
    assert_eq!(quoted_pair("USD", "USD"), None);
    assert_eq!(
        rate_not_found("EUR", "GBP"),
        DbError::Custom("Exchange rate not found for currency pair: EUR to GBP".to_string())
    );
}

#[test]
fn cached_rates_live_six_hours() {
    assert!(is_cached_rate_fresh(0));
    assert!(is_cached_rate_fresh(-5));
    assert!(is_cached_rate_fresh(21_599));
    assert!(!is_cached_rate_fresh(21_600));
    assert!(is_identity_conversion("INR", "INR"));
    assert!(!is_identity_conversion("INR", "USD"));
}

#[test]
fn rate_board_lists_ten_currencies() {
    let board = rate_board_currencies();
    assert_eq!(board, vec!["USD", "EUR", "GBP", "JPY", "AUD", "CAD", "CHF", "INR", "SGD", "AED"]);
}
