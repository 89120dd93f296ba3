//! Failures of transfers run under the retry policy.

use vstd::prelude::*;
use crate::utils::retry::RetryError;
use crate::utils::text::join2;

verus! {
/// Failure of a transfer run under the retry policy.
#[derive(Debug, Clone, PartialEq, Eq)]
pub enum TransactionError {
    RetriesExhausted(String),
    OperationFailed(String),
}

/// The text a transfer failure displays.
pub open spec fn transaction_error_text(e: TransactionError) -> Seq<char> {
    match e {
        TransactionError::RetriesExhausted(m) => "Transaction failed after all retry attempts: "@ + m@,
        TransactionError::OperationFailed(m) => "Transaction operation failed: "@ + m@,
    }
}

impl TransactionError {
    /// The text this error displays.
    pub fn message(&self) -> (s: String)
        ensures
            s@ == transaction_error_text(*self),
    {
        match self {
            TransactionError::RetriesExhausted(m) => join2(
                "Transaction failed after all retry attempts: ",
                m.as_str(),
            ),
            TransactionError::OperationFailed(m) => join2("Transaction operation failed: ", m.as_str()),
        }
    }
}


/// The failure reported for a transfer whose retried run failed; a run
/// that exhausted its retries is described by `context`.
pub fn transaction_error_from_retry(error: RetryError<String>, context: String) -> (e: TransactionError)
    ensures
        match error {
            RetryError::Exhausted => e == TransactionError::RetriesExhausted(context),
            RetryError::OperationFailed(m) => e == TransactionError::OperationFailed(m),
        },
{
    match error {
        RetryError::Exhausted => TransactionError::RetriesExhausted(context),
        RetryError::OperationFailed(m) => TransactionError::OperationFailed(m),
    }
}

} // verus!
