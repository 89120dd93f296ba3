//! Transfer records: their lifecycle states and the currency rule for
//! opening accounts.

use vstd::prelude::*;
use crate::utils::text::{str_equal, join2};

verus! {


/// The state of a transfer record.
#[derive(Debug, Clone, Copy, PartialEq, Eq, Structural)]
pub enum TransactionStatus {
    Pending,
    Completed,
    Failed,
}

/// The label under which a transfer state is stored.
pub open spec fn transaction_status_label(s: TransactionStatus) -> Seq<char> {
    match s {
        TransactionStatus::Pending => "PENDING"@,
        TransactionStatus::Completed => "COMPLETED"@,
        TransactionStatus::Failed => "FAILED"@,
    }
}

/// The transfer state a stored label names, if any.
pub open spec fn parse_transaction_status(s: Seq<char>) -> Option<TransactionStatus> {
    if s == "PENDING"@ {
        Some(TransactionStatus::Pending)
    } else if s == "COMPLETED"@ {
        Some(TransactionStatus::Completed)
    } else if s == "FAILED"@ {
        Some(TransactionStatus::Failed)
    } else {
        None
    }
}

impl TransactionStatus {
    /// The stored label of this state.
    pub fn as_str(&self) -> (s: &'static str)
        ensures
            s@ == transaction_status_label(*self),
    {
        match self {
            TransactionStatus::Pending => "PENDING",
            TransactionStatus::Completed => "COMPLETED",
            TransactionStatus::Failed => "FAILED",
        }
    }

    /// The stored label of this state, as an owned string.
    pub fn to_string(&self) -> (s: String)
        ensures
            s@ == transaction_status_label(*self),
    {
        self.as_str().to_owned()
    }

    /// Reads a stored label; an unknown label is reported as
    /// `Invalid status: <label>`.
    pub fn from_str(s: &str) -> (r: Result<TransactionStatus, String>)
        ensures
            match r {
                Ok(st) => parse_transaction_status(s@) == Some(st),
                Err(msg) => parse_transaction_status(s@) is None
                    && msg@ == "Invalid status: "@ + s@,
            },
    {
        if str_equal(s, "PENDING") {
            Ok(TransactionStatus::Pending)
        } else if str_equal(s, "COMPLETED") {
            Ok(TransactionStatus::Completed)
        } else if str_equal(s, "FAILED") {
            Ok(TransactionStatus::Failed)
        } else {
            Err(join2("Invalid status: ", s))
        }
    }
}


impl TransactionStatus {
    /// Reads a stored label, taking an unknown label as a failed transfer.
    pub fn from_stored(s: &str) -> (st: TransactionStatus)
        ensures
            st == match parse_transaction_status(s@) {
                Some(x) => x,
                None => TransactionStatus::Failed,
            },
    {
        match TransactionStatus::from_str(s) {
            Ok(st) => st,
            Err(_) => TransactionStatus::Failed,
        }
    }
}

/// Reading back the label of a transfer state gives that state again,
/// and a label that reads as a state is that state's label.
pub proof fn transaction_status_label_roundtrip(st: TransactionStatus, s: Seq<char>)
    ensures
        parse_transaction_status(transaction_status_label(st)) == Some(st),
        parse_transaction_status(s) == Some(st) ==> s == transaction_status_label(st),
{
    reveal_strlit("PENDING");
    reveal_strlit("COMPLETED");
    reveal_strlit("FAILED");
    assert("PENDING"@[0] != "COMPLETED"@[0]);
    assert("PENDING"@ != "COMPLETED"@);
    assert("PENDING"@[0] != "FAILED"@[0]);
    assert("PENDING"@ != "FAILED"@);
    assert("COMPLETED"@[0] != "FAILED"@[0]);
    assert("COMPLETED"@ != "FAILED"@);
}


#[verifier::external_type_specification]
#[verifier::external_body]
pub struct ExValidationError(validator::ValidationError);

/// Calls `validator::ValidationError::new`: an error carrying `code`,
/// with no message and no parameters. Nothing is claimed of the value.
#[verifier::external_body]
fn validation_error(code: &'static str) -> validator::ValidationError {
    validator::ValidationError::new(code)
}

/// The currencies accounts can be opened in.
pub open spec fn supported_currencies() -> Seq<Seq<char>> {
    seq!["INR"@, "USD"@, "EUR"@, "GBP"@, "SGD"@, "AED"@]
}

/// Accounts can be opened in the supported currencies (INR, USD, EUR,
/// GBP, SGD, AED); any other currency is refused with the validation code
/// `only_inr_allowed`.
pub fn validate_currency(currency: &str) -> (r: Result<(), validator::ValidationError>)
    ensures
        r is Ok <==> supported_currencies().contains(currency@),
{
    let supported: [&'static str; 6] = ["INR", "USD", "EUR", "GBP", "SGD", "AED"];
    let mut i: usize = 0;
    while i < 6
        invariant
            0 <= i <= 6,
            forall|k: int| 0 <= k < 6 ==> #[trigger] supported@[k]@ == supported_currencies()[k],
            forall|k: int| 0 <= k < i ==> supported_currencies()[k] != currency@,
        decreases 6 - i,
    {
        if str_equal(supported[i], currency) {
            return Ok(());
        }
        i = i + 1;
    }
    proof {
        assert forall|k: int| 0 <= k < supported_currencies().len() implies supported_currencies()[k] != currency@ by {}
    }
    Err(validation_error("only_inr_allowed"))
}

} // verus!
