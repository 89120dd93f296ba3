//! Who may read the compliance record of a transfer, and what the answer
//! reports about the two parties.

use vstd::prelude::*;
use crate::db::cross_border::country_or_unknown;
use crate::utils::text::str_equal;

verus! {

/// The refusal for a transfer the caller is not a party to.
pub open spec fn not_owned_text() -> Seq<char> {
    "Transaction not found or does not belong to this user"@
}

/// The refusal for a transfer that did not cross a border.
pub open spec fn not_cross_border_text() -> Seq<char> {
    "This transaction does not have compliance check information"@
}

/// An optional text by its characters.
pub open spec fn text_view(t: Option<String>) -> Option<Seq<char>> {
    match t {
        Some(x) => Some(x@),
        None => None,
    }
}

/// Whether entry `i` is the first of `owned` with id `id`.
pub open spec fn is_first_match(owned: Seq<(String, Option<bool>)>, id: Seq<char>, i: int) -> bool {
    &&& 0 <= i < owned.len()
    &&& owned[i].0@ == id
    &&& forall|j: int| 0 <= j < i ==> #[trigger] owned[j].0@ != id
}

/// Whether no entry of `owned` has id `id`.
pub open spec fn no_match(owned: Seq<(String, Option<bool>)>, id: Seq<char>) -> bool {
    forall|j: int| 0 <= j < owned.len() ==> #[trigger] owned[j].0@ != id
}

/// Finds the caller's transfer whose compliance record is asked for, among
/// the caller's transfers given as (id, cross-border flag): the first entry
/// with that id, which must be marked cross-border.
pub fn compliance_access(owned: &Vec<(String, Option<bool>)>, transaction_id: &str) -> (r: Result<usize, String>)
    ensures
        match r {
            Ok(i) => is_first_match(owned@, transaction_id@, i as int) && owned@[i as int].1 == Some(true),
            Err(m) => if no_match(owned@, transaction_id@) {
                m@ == not_owned_text()
            } else {
                m@ == not_cross_border_text() && exists|i: int| #[trigger] is_first_match(owned@, transaction_id@, i)
                    && owned@[i].1 != Some(true)
            },
        },
{
    let mut i: usize = 0;
    while i < owned.len()
        invariant
            0 <= i <= owned.len(),
            forall|j: int| 0 <= j < i ==> #[trigger] owned@[j].0@ != transaction_id@,
        decreases owned.len() - i,
    {
        if str_equal(owned[i].0.as_str(), transaction_id) {
            assert(is_first_match(owned@, transaction_id@, i as int));
            return match owned[i].1 {
                Some(true) => Ok(i),
                _ => {
                    assert(!no_match(owned@, transaction_id@));
                    Err("This transaction does not have compliance check information".to_owned())
                },
            };
        }
        i = i + 1;
    }
    Err("Transaction not found or does not belong to this user".to_owned())
}

/// The answer about the parties of a screened transfer, given whether its
/// compliance record was found and, for each account looked up, its
/// recorded country (`None` when the account is missing): a missing record
/// or account is refused in that order, a missing country reads `UNKNOWN`.
pub fn compliance_parties(
    record_found: bool,
    sender: Option<Option<String>>,
    recipient: Option<Option<String>>,
) -> (r: Result<(String, String), String>)
    ensures
        !record_found ==> (r matches Err(m) && m@ == "No compliance information found for this transaction"@),
        record_found && sender is None ==> (r matches Err(m) && m@ == "Sender account not found"@),
        record_found && sender is Some && recipient is None ==> (r matches Err(m)
            && m@ == "Receiver account not found"@),
        record_found && sender is Some && recipient is Some ==> (r matches Ok((s, d))
            && s@ == country_or_unknown(text_view(sender.unwrap()))
            && d@ == country_or_unknown(text_view(recipient.unwrap()))),
{
    if !record_found {
        return Err("No compliance information found for this transaction".to_owned());
    }
    let source = match sender {
        None => {
            return Err("Sender account not found".to_owned());
        },
        Some(country) => known_or_unknown(country),
    };
    let destination = match recipient {
        None => {
            return Err("Receiver account not found".to_owned());
        },
        Some(country) => known_or_unknown(country),
    };
    Ok((source, destination))
}

/// A recorded country, or `UNKNOWN`.
fn known_or_unknown(country: Option<String>) -> (c: String)
    ensures
        c@ == country_or_unknown(text_view(country)),
{
    match country {
        Some(x) => x,
        None => "UNKNOWN".to_owned(),
    }
}

} // verus!
