use payment_system::db::common::{account_not_found, validate_transaction, AccountFacts};
use payment_system::db::cross_border::{CrossBorderTransfer, TransferAction, TransferEvent, TransferStep};
use payment_system::db::error::DbError;
use payment_system::db::transaction::{check_balance_update, plan_transfer};
use payment_system::services::compliance::ComplianceStatus;

fn account(currency: &str, country: Option<&str>) -> AccountFacts {
    AccountFacts {
        id: "00000000-0000-0000-0000-000000000000".to_string(),
        currency: currency.to_string(),
        country: country.map(|c| c.to_string()),
    }
}

fn custom(text: &str) -> DbError {
    DbError::Custom(text.to_string())
}

#[test]
fn sender_currency_is_checked_before_funds() {
    let e = validate_transaction(&account("INR", Some("IN")), "USD", false).unwrap_err();
    assert_eq!(e, custom("Currency mismatch: sender account uses INR but transaction is in USD"));
    let e = validate_transaction(&account("INR", Some("IN")), "INR", false).unwrap_err();
    assert_eq!(e, custom("Insufficient balance"));
    assert!(validate_transaction(&account("INR", Some("IN")), "INR", true).is_ok());
}

#[test]
fn same_currency_transfer_plan() {
    let inr = account("INR", Some("IN"));
    assert_eq!(plan_transfer(&inr, &account("INR", Some("IN")), "INR", true), Ok(false));
    assert_eq!(plan_transfer(&inr, &account("INR", Some("SG")), "INR", true), Ok(true));
    assert_eq!(
        plan_transfer(&inr, &account("USD", Some("US")), "INR", true),
        Err(custom("Currency mismatch: recipient account uses USD but transaction is in INR"))
    );
    assert_eq!(plan_transfer(&inr, &account("USD", Some("US")), "INR", false), Err(custom("Insufficient balance")));
}

#[test]
fn a_guarded_update_must_touch_a_row() {
    assert_eq!(
        check_balance_update(0),
        Err(custom("Account balance changed during transaction. Please try again."))
    );
    assert_eq!(check_balance_update(1), Ok(()));
}

#[test]
fn missing_account_message() {
    assert_eq!(account_not_found("abc"), custom("Account not found: abc"));
}

fn run(t: CrossBorderTransfer, events: Vec<TransferEvent>) -> (CrossBorderTransfer, Vec<TransferAction>) {
    let mut t = t;
    let mut actions = Vec::new();
    for e in events {
        assert!(t.accepts(&e));
        let (next, a) = t.advance(e);
        t = next;
        actions.push(a);
    }
    (t, actions)
}

#[test]
fn domestic_transfer_skips_compliance() {
    let (t, a) = CrossBorderTransfer::start(&account("INR", Some("IN")), &account("INR", Some("IN")), "INR", true, true);
    assert!(matches!(a, TransferAction::InsertRecord));
    assert!(!t.cross_border && !t.converts);
    let (t, actions) = run(
        t,
        vec![
            TransferEvent::RecordCommitted,
            TransferEvent::SenderDebited { rows_affected: 1 },
            TransferEvent::RecipientCredited { rows_affected: 1 },
            TransferEvent::Completed,
        ],
    );
    assert!(matches!(actions[0], TransferAction::DebitSender));
    assert!(matches!(actions[1], TransferAction::CreditRecipient));
    assert!(matches!(actions[2], TransferAction::CompleteRecord));
    assert!(matches!(actions[3], TransferAction::ReturnRecord));
    assert_eq!(t.step, TransferStep::Finished);
    assert_eq!(t.compliance, None);
}

#[test]
fn converted_cross_border_transfer_is_screened_before_debit() {
    let (t, a) = CrossBorderTransfer::start(&account("USD", Some("US")), &account("INR", Some("IN")), "USD", true, true);
    assert!(matches!(a, TransferAction::Convert));
    assert!(t.cross_border && t.converts);
    assert_eq!(t.target_currency, "INR");
    assert_eq!(t.source_country, "US");
    assert_eq!(t.destination_country, "IN");
    let (t, actions) = run(
        t,
        vec![
            TransferEvent::Converted,
            TransferEvent::RecordCommitted,
            TransferEvent::ComplianceChecked { status: ComplianceStatus::Approved, details: None },
            TransferEvent::SenderDebited { rows_affected: 1 },
        ],
    );
    assert!(matches!(actions[0], TransferAction::InsertRecord));
    assert!(matches!(actions[1], TransferAction::RunCompliance));
    assert!(matches!(actions[2], TransferAction::DebitSender));
    assert!(matches!(actions[3], TransferAction::CreditRecipient));
    assert_eq!(t.compliance, Some(ComplianceStatus::Approved));
}

#[test]
fn review_returns_the_pending_record() {
    let (t, _) = CrossBorderTransfer::start(&account("USD", None), &account("INR", None), "USD", true, true);
    assert_eq!(t.source_country, "UNKNOWN");
    let (t, actions) = run(
        t,
        vec![
            TransferEvent::Converted,
            TransferEvent::RecordCommitted,
            TransferEvent::ComplianceChecked {
                status: ComplianceStatus::PendingReview,
                details: Some("Transaction requires manual review".to_string()),
            },
        ],
    );
    assert!(matches!(actions[2], TransferAction::ReturnRecord));
    assert_eq!(t.step, TransferStep::Finished);
    assert!(!t.accepts(&TransferEvent::SenderDebited { rows_affected: 1 }));
}

#[test]
fn rejection_marks_the_record_failed() {
    let (t, _) = CrossBorderTransfer::start(&account("USD", Some("US")), &account("INR", Some("IN")), "USD", true, true);
    let (_, actions) = run(
        t,
        vec![
            TransferEvent::Converted,
            TransferEvent::RecordCommitted,
            TransferEvent::ComplianceChecked {
                status: ComplianceStatus::Rejected,
                details: Some("Transaction exceeds risk threshold".to_string()),
            },
        ],
    );
    match &actions[2] {
        TransferAction::MarkFailedAndFail(e) => assert_eq!(
            *e,
            custom("Transaction rejected due to compliance issues: Transaction exceeds risk threshold")
        ),
        other => panic!("unexpected {:?}", other),
    }
    let (t, _) = CrossBorderTransfer::start(&account("USD", Some("US")), &account("INR", Some("IN")), "USD", true, true);
    let (_, actions) = run(
        t,
        vec![
            TransferEvent::Converted,
            TransferEvent::RecordCommitted,
            TransferEvent::ComplianceChecked { status: ComplianceStatus::Rejected, details: None },
        ],
    );
    match &actions[2] {
        TransferAction::MarkFailedAndFail(e) => {
            assert_eq!(*e, custom("Transaction rejected due to compliance issues: No details provided"))
        }
        other => panic!("unexpected {:?}", other),
    }
}

#[test]
fn a_changed_balance_rolls_back() {
    let (t, _) = CrossBorderTransfer::start(&account("INR", Some("IN")), &account("INR", Some("IN")), "INR", false, true);
    let (_, actions) = run(
        t,
        vec![TransferEvent::RecordCommitted, TransferEvent::SenderDebited { rows_affected: 0 }],
    );
    match &actions[1] {
        TransferAction::RollbackAndFail(e) => {
            assert_eq!(*e, custom("Account balance changed during transaction. Please try again."))
        }
        other => panic!("unexpected {:?}", other),
    }
}

#[test]
fn refusals_before_anything_is_written() {
    let (t, a) = CrossBorderTransfer::start(&account("INR", Some("IN")), &account("USD", Some("US")), "INR", false, true);
    assert_eq!(t.step, TransferStep::Finished);
    match a {
        TransferAction::Fail(e) => {
            assert_eq!(e, custom("Currency mismatch: recipient account uses USD but transaction is in INR"))
        }
        other => panic!("unexpected {:?}", other),
    }
    let (_, a) = CrossBorderTransfer::start(&account("INR", Some("IN")), &account("USD", Some("US")), "USD", true, true);
    match a {
        TransferAction::Fail(e) => {
            assert_eq!(e, custom("Currency mismatch: sender account uses INR but transaction is in USD"))
        }
        other => panic!("unexpected {:?}", other),
    }
    let (_, a) = CrossBorderTransfer::start(&account("INR", Some("IN")), &account("USD", Some("US")), "INR", true, false);
    match a {
        TransferAction::Fail(e) => assert_eq!(e, custom("Insufficient balance")),
        other => panic!("unexpected {:?}", other),
    }
}

#[test]
fn conversion_and_storage_failures_stop_the_transfer() {
    let (t, _) = CrossBorderTransfer::start(&account("USD", Some("US")), &account("EUR", Some("DE")), "USD", true, true);
    let (t, a) = t.advance(TransferEvent::ConversionFailed(custom("Exchange rate not found for currency pair: USD to EUR")));
    assert_eq!(t.step, TransferStep::Finished);
    assert!(matches!(a, TransferAction::Fail(_)));
    let (t, _) = CrossBorderTransfer::start(&account("USD", Some("US")), &account("USD", Some("US")), "USD", true, true);
    let (t, a) = t.advance(TransferEvent::StorageFailed(custom("Failed to acquire database lock")));
    assert_eq!(t.step, TransferStep::Finished);
    match a {
        TransferAction::Fail(e) => assert_eq!(e, custom("Failed to acquire database lock")),
        other => panic!("unexpected {:?}", other),
    }
}
