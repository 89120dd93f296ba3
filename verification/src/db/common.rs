//! Account checks shared by every kind of transfer.
//!
//! Reading and writing accounts and transfer records is done by the caller;
//! the modules under `db` decide, from what was read, whether and how a
//! transfer proceeds. Amounts are never seen here: the caller compares them
//! and reports the outcome (`sender_has_funds`).

use vstd::prelude::*;
use crate::utils::currency_mapping::{spec_is_cross_border_by_currency, is_cross_border_by_currency, country_of, get_country_for_currency};
use crate::db::error::DbError;
use crate::utils::text::{join2, join4, str_equal};

verus! {


/// What a transfer needs to know of an account.
#[derive(Debug)]
pub struct AccountFacts {
    pub id: String,
    pub currency: String,
    pub country: Option<String>,
}

/// The country codes of an account, if recorded.
pub open spec fn country_view(a: &AccountFacts) -> Option<Seq<char>> {
    match a.country {
        Some(c) => Some(c@),
        None => None,
    }
}

/// Whether a transfer crosses a border: by the accounts' countries when
/// both are recorded, otherwise by their currencies.
pub open spec fn spec_is_cross_border_transfer(sender: &AccountFacts, recipient: &AccountFacts) -> bool {
    match (country_view(sender), country_view(recipient)) {
        (Some(a), Some(b)) => a != b,
        _ => spec_is_cross_border_by_currency(sender.currency@, recipient.currency@),
    }
}

/// Whether a transfer crosses a border.
pub fn is_cross_border_transfer(sender: &AccountFacts, recipient: &AccountFacts) -> (r: bool)
    ensures
        r == spec_is_cross_border_transfer(sender, recipient),
{
    match (&sender.country, &recipient.country) {
        (Some(a), Some(b)) => !str_equal(a.as_str(), b.as_str()),
        _ => is_cross_border_by_currency(sender.currency.as_str(), recipient.currency.as_str()),
    }
}

/// The message refusing a transfer in a currency other than the sender's.
pub open spec fn sender_mismatch_text(account_currency: Seq<char>, currency: Seq<char>) -> Seq<char> {
    "Currency mismatch: sender account uses "@ + account_currency + " but transaction is in "@ + currency
}

/// The message refusing a transfer in a currency other than the recipient's.
pub open spec fn recipient_mismatch_text(account_currency: Seq<char>, currency: Seq<char>) -> Seq<char> {
    "Currency mismatch: recipient account uses "@ + account_currency + " but transaction is in "@ + currency
}

/// Whether an error is a service-side error with the given text.
pub open spec fn is_custom_error(e: DbError, text: Seq<char>) -> bool {
    e matches DbError::Custom(m) && m@ == text
}

/// The checks on the sender of a transfer: the transfer must be in the
/// sender's currency, and the sender's balance must cover the amount.
pub open spec fn spec_validate(sender_currency: Seq<char>, currency: Seq<char>, sender_has_funds: bool) -> Option<Seq<char>> {
    if sender_currency != currency {
        Some(sender_mismatch_text(sender_currency, currency))
    } else if !sender_has_funds {
        Some("Insufficient balance"@)
    } else {
        None
    }
}

/// Checks the sender of a transfer (currency first, then funds).
pub fn validate_transaction(sender: &AccountFacts, currency: &str, sender_has_funds: bool) -> (r: Result<(), DbError>)
    ensures
        match spec_validate(sender.currency@, currency@, sender_has_funds) {
            Some(text) => r matches Err(e) && is_custom_error(e, text),
            None => r is Ok,
        },
{
    if !str_equal(sender.currency.as_str(), currency) {
        return Err(DbError::Custom(join4(
            "Currency mismatch: sender account uses ",
            sender.currency.as_str(),
            " but transaction is in ",
            currency,
        )));
    }
    if !sender_has_funds {
        return Err(DbError::custom("Insufficient balance"));
    }
    Ok(())
}


/// The error for an account id with no account.
pub fn account_not_found(account_id: &str) -> (e: DbError)
    ensures
        is_custom_error(e, "Account not found: "@ + account_id@),
{
    DbError::Custom(join2("Account not found: ", account_id))
}

/// The country recorded for a new account: the one given, otherwise the
/// country of its currency, otherwise India.
pub fn account_country(country: Option<&str>, currency: &str) -> (c: String)
    ensures
        c@ == match country {
            Some(x) => x@,
            None => match country_of(currency@) {
                Some(y) => y,
                None => "IN"@,
            },
        },
{
    match country {
        Some(code) => code.to_owned(),
        None => match get_country_for_currency(currency) {
            Some(code) => code.to_owned(),
            None => "IN".to_owned(),
        },
    }
}

} // verus!
