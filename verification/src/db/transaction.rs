//! Rules of a same-currency transfer.

use vstd::prelude::*;
use crate::db::common::{AccountFacts, spec_validate, is_custom_error, recipient_mismatch_text, spec_is_cross_border_transfer, validate_transaction, is_cross_border_transfer};
use crate::db::error::DbError;
use crate::utils::text::{join4, str_equal};

verus! {
/// Decides a same-currency transfer: the sender checks, then the
/// recipient must hold the same currency. On success returns whether the
/// transfer crosses a border (recorded with it).
pub fn plan_transfer(
    sender: &AccountFacts,
    recipient: &AccountFacts,
    currency: &str,
    sender_has_funds: bool,
) -> (r: Result<bool, DbError>)
    ensures
        match spec_validate(sender.currency@, currency@, sender_has_funds) {
            Some(text) => r matches Err(e) && is_custom_error(e, text),
            None => if recipient.currency@ != currency@ {
                r matches Err(e) && is_custom_error(e, recipient_mismatch_text(recipient.currency@, currency@))
            } else {
                r == Ok::<bool, DbError>(spec_is_cross_border_transfer(sender, recipient))
            },
        },
{
    validate_transaction(sender, currency, sender_has_funds)?;
    if !str_equal(recipient.currency.as_str(), currency) {
        return Err(DbError::Custom(join4(
            "Currency mismatch: recipient account uses ",
            recipient.currency.as_str(),
            " but transaction is in ",
            currency,
        )));
    }
    Ok(is_cross_border_transfer(sender, recipient))
}

/// The message of a balance update that found the balance changed.
pub open spec fn balance_changed_text() -> Seq<char> {
    "Account balance changed during transaction. Please try again."@
}

/// Checks a guarded balance update: it must have touched a row, otherwise
/// the balance changed since it was read (optimistic concurrency).
pub fn check_balance_update(rows_affected: usize) -> (r: Result<(), DbError>)
    ensures
        rows_affected == 0 ==> (r matches Err(e) && is_custom_error(e, balance_changed_text())),
        rows_affected != 0 ==> r is Ok,
{
    if rows_affected == 0 {
        return Err(DbError::custom("Account balance changed during transaction. Please try again."));
    }
    Ok(())
}

} // verus!
