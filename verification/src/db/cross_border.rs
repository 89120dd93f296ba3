//! Rules of a cross-border transfer, which may convert the amount and must
//! pass a compliance check before money moves.

use vstd::prelude::*;
use crate::db::common::{AccountFacts, country_view, spec_validate, is_custom_error, recipient_mismatch_text, spec_is_cross_border_transfer, validate_transaction, is_cross_border_transfer};
use crate::db::error::DbError;
use crate::db::transaction::{balance_changed_text, check_balance_update};
use crate::services::compliance::ComplianceStatus;
use crate::utils::text::{join2, join4, str_equal};

verus! {
/// Where a cross-border transfer stands.
#[derive(Debug, Clone, Copy, PartialEq, Eq, Structural)]
pub enum TransferStep {
    /// The amount is being converted to the recipient's currency.
    AwaitingConversion,
    /// The pending record is being written.
    AwaitingRecord,
    /// The compliance check is running.
    AwaitingCompliance,
    /// The sender's balance is being debited.
    AwaitingDebit,
    /// The recipient's balance is being credited.
    AwaitingCredit,
    /// The record is being marked completed.
    AwaitingCompletion,
    /// Nothing more happens.
    Finished,
}

/// Work the caller performs next.
#[derive(Debug)]
pub enum TransferAction {
    /// Convert the amount into the recipient's currency.
    Convert,
    /// Write the pending transfer record and commit it.
    InsertRecord,
    /// Screen the transfer and record the check.
    RunCompliance,
    /// Debit the sender, guarded by the balance read before.
    DebitSender,
    /// Credit the recipient, guarded by the balance read before.
    CreditRecipient,
    /// Mark the record completed and commit.
    CompleteRecord,
    /// Fetch the record and return it.
    ReturnRecord,
    /// Stop with this error.
    Fail(DbError),
    /// Mark the record failed, then stop with this error.
    MarkFailedAndFail(DbError),
    /// Roll back the balance updates, then stop with this error.
    RollbackAndFail(DbError),
}

/// What the caller reports after doing the work asked of it.
#[derive(Debug)]
pub enum TransferEvent {
    Converted,
    ConversionFailed(DbError),
    RecordCommitted,
    ComplianceChecked { status: ComplianceStatus, details: Option<String> },
    ComplianceFailed(DbError),
    SenderDebited { rows_affected: usize },
    RecipientCredited { rows_affected: usize },
    Completed,
    /// A read or write failed.
    StorageFailed(DbError),
}

/// A cross-border transfer in progress.
#[derive(Debug)]
pub struct CrossBorderTransfer {
    pub step: TransferStep,
    /// The countries or currencies of the two accounts differ.
    pub cross_border: bool,
    /// The amount is converted into the recipient's currency.
    pub converts: bool,
    /// Outcome of the compliance check, once it ran.
    pub compliance: Option<ComplianceStatus>,
    /// The currency the recipient is credited in.
    pub target_currency: String,
    /// Sender's country for the compliance check (`UNKNOWN` if not recorded).
    pub source_country: String,
    /// Recipient's country for the compliance check (`UNKNOWN` if not recorded).
    pub destination_country: String,
}

/// Money moves only after the record exists and, for a cross-border
/// transfer, after compliance approved it.
pub open spec fn transfer_wf(t: &CrossBorderTransfer) -> bool {
    &&& (t.step == TransferStep::AwaitingDebit || t.step == TransferStep::AwaitingCredit
            || t.step == TransferStep::AwaitingCompletion) ==> (!t.cross_border || t.compliance == Some(
            ComplianceStatus::Approved,
        ))
    &&& t.step == TransferStep::AwaitingConversion ==> t.converts
    &&& t.step == TransferStep::AwaitingCompliance ==> t.cross_border
    &&& t.compliance is Some ==> t.cross_border
}

/// Whether `event` answers the work asked in `step`.
pub open spec fn expects(step: TransferStep, event: &TransferEvent) -> bool {
    match event {
        TransferEvent::Converted | TransferEvent::ConversionFailed(_) => step == TransferStep::AwaitingConversion,
        TransferEvent::RecordCommitted => step == TransferStep::AwaitingRecord,
        TransferEvent::ComplianceChecked { .. } | TransferEvent::ComplianceFailed(_) => step
            == TransferStep::AwaitingCompliance,
        TransferEvent::SenderDebited { .. } => step == TransferStep::AwaitingDebit,
        TransferEvent::RecipientCredited { .. } => step == TransferStep::AwaitingCredit,
        TransferEvent::Completed => step == TransferStep::AwaitingCompletion,
        TransferEvent::StorageFailed(_) => step != TransferStep::Finished,
    }
}

/// Steps left before the transfer finishes, at most.
pub open spec fn steps_left(step: TransferStep) -> nat {
    match step {
        TransferStep::AwaitingConversion => 6,
        TransferStep::AwaitingRecord => 5,
        TransferStep::AwaitingCompliance => 4,
        TransferStep::AwaitingDebit => 3,
        TransferStep::AwaitingCredit => 2,
        TransferStep::AwaitingCompletion => 1,
        TransferStep::Finished => 0,
    }
}

/// The message of a transfer refused by compliance.
pub open spec fn rejection_text(details: Option<Seq<char>>) -> Seq<char> {
    "Transaction rejected due to compliance issues: "@ + match details {
        Some(d) => d,
        None => "No details provided"@,
    }
}

/// A country code, or `UNKNOWN` when absent.
pub open spec fn country_or_unknown(c: Option<Seq<char>>) -> Seq<char> {
    match c {
        Some(x) => x,
        None => "UNKNOWN"@,
    }
}

fn country_or_unknown_exec(c: &Option<String>) -> (r: String)
    ensures
        r@ == country_or_unknown(match c { Some(x) => Some(x@), None => None }),
{
    match c {
        Some(x) => x.clone(),
        None => "UNKNOWN".to_owned(),
    }
}

impl CrossBorderTransfer {
    /// A transfer that stops with `e`.
    fn finished_with(e: DbError) -> (r: (CrossBorderTransfer, TransferAction))
        ensures
            r.0.step == TransferStep::Finished,
            r.0.compliance is None,
            r.1 == TransferAction::Fail(e),
    {
        (
            CrossBorderTransfer {
                step: TransferStep::Finished,
                cross_border: false,
                converts: false,
                compliance: None,
                target_currency: String::new(),
                source_country: String::new(),
                destination_country: String::new(),
            },
            TransferAction::Fail(e),
        )
    }

    /// Whether the transfer waits for this event.
    pub fn accepts(&self, event: &TransferEvent) -> (r: bool)
        ensures
            r == expects(self.step, event),
    {
        match event {
            TransferEvent::Converted | TransferEvent::ConversionFailed(_) => self.step
                == TransferStep::AwaitingConversion,
            TransferEvent::RecordCommitted => self.step == TransferStep::AwaitingRecord,
            TransferEvent::ComplianceChecked { .. } | TransferEvent::ComplianceFailed(_) => self.step
                == TransferStep::AwaitingCompliance,
            TransferEvent::SenderDebited { .. } => self.step == TransferStep::AwaitingDebit,
            TransferEvent::RecipientCredited { .. } => self.step == TransferStep::AwaitingCredit,
            TransferEvent::Completed => self.step == TransferStep::AwaitingCompletion,
            TransferEvent::StorageFailed(_) => self.step != TransferStep::Finished,
        }
    }

    /// Starts a transfer of an amount in `currency` from `sender` to
    /// `recipient`, converting it when asked and the accounts' currencies
    /// differ. Refuses, before anything is written, a currency other than
    /// the sender's, an uncovered amount, and (without conversion) a
    /// currency other than the recipient's.
    pub fn start(
        sender: &AccountFacts,
        recipient: &AccountFacts,
        currency: &str,
        convert_currency: bool,
        sender_has_funds: bool,
    ) -> (r: (CrossBorderTransfer, TransferAction))
        ensures
            transfer_wf(&r.0),
            r.0.compliance is None,
            match spec_validate(sender.currency@, currency@, sender_has_funds) {
                Some(text) => r.0.step == TransferStep::Finished && (r.1 matches TransferAction::Fail(e)
                    && is_custom_error(e, text)),
                None => if !convert_currency && recipient.currency@ != currency@ {
                    r.0.step == TransferStep::Finished && (r.1 matches TransferAction::Fail(e)
                        && is_custom_error(e, recipient_mismatch_text(recipient.currency@, currency@)))
                } else {
                    &&& r.0.cross_border == spec_is_cross_border_transfer(sender, recipient)
                    &&& r.0.converts == (convert_currency && sender.currency@ != recipient.currency@)
                    &&& r.0.target_currency@ == recipient.currency@
                    &&& r.0.source_country@ == country_or_unknown(country_view(sender))
                    &&& r.0.destination_country@ == country_or_unknown(country_view(recipient))
                    &&& if r.0.converts {
                        r.0.step == TransferStep::AwaitingConversion && r.1 is Convert
                    } else if recipient.currency@ != currency@ {
                        r.0.step == TransferStep::Finished && (r.1 matches TransferAction::Fail(e)
                            && is_custom_error(e, recipient_mismatch_text(recipient.currency@, currency@)
                            + ". Enable currency conversion to proceed."@))
                    } else {
                        r.0.step == TransferStep::AwaitingRecord && r.1 is InsertRecord
                    }
                },
            },
    {
        let target_currency = recipient.currency.clone();
        let source_country = country_or_unknown_exec(&sender.country);
        let destination_country = country_or_unknown_exec(&recipient.country);
        match validate_transaction(sender, currency, sender_has_funds) {
            Err(e) => return Self::finished_with(e),
            Ok(()) => {},
        }
        if !convert_currency && !str_equal(recipient.currency.as_str(), currency) {
            return Self::finished_with(DbError::Custom(join4(
                "Currency mismatch: recipient account uses ",
                recipient.currency.as_str(),
                " but transaction is in ",
                currency,
            )));
        }
        if !sender_has_funds {
            return Self::finished_with(DbError::custom("Insufficient balance"));
        }
        let cross_border = is_cross_border_transfer(sender, recipient);
        let converts = convert_currency && !str_equal(sender.currency.as_str(), recipient.currency.as_str());
        let (step, action) = if converts {
            (TransferStep::AwaitingConversion, TransferAction::Convert)
        } else if !str_equal(recipient.currency.as_str(), currency) {
            let m = join4(
                "Currency mismatch: recipient account uses ",
                recipient.currency.as_str(),
                " but transaction is in ",
                currency,
            );
            (
                TransferStep::Finished,
                TransferAction::Fail(DbError::Custom(join2(m.as_str(), ". Enable currency conversion to proceed."))),
            )
        } else {
            (TransferStep::AwaitingRecord, TransferAction::InsertRecord)
        };
        (
            CrossBorderTransfer {
                step,
                cross_border,
                converts,
                compliance: None,
                target_currency,
                source_country,
                destination_country,
            },
            action,
        )
    }

    /// Takes the next step after the caller reports `event`:
    /// a conversion leads to writing the record; a written record leads to
    /// the compliance check when the transfer crosses a border, otherwise
    /// straight to the debit; approval leads to the debit, review returns
    /// the pending record, rejection marks it failed; the debit and the
    /// credit must each touch a row, else everything is rolled back; a
    /// failed read or write stops the transfer.
    pub fn advance(self, event: TransferEvent) -> (r: (CrossBorderTransfer, TransferAction))
        requires
            transfer_wf(&self),
            expects(self.step, &event),
        ensures
            transfer_wf(&r.0),
            steps_left(r.0.step) < steps_left(self.step),
            r.0.cross_border == self.cross_border,
            r.0.converts == self.converts,
            r.0.target_currency == self.target_currency,
            r.0.source_country == self.source_country,
            r.0.destination_country == self.destination_country,
            match event {
                TransferEvent::Converted => r.0.step == TransferStep::AwaitingRecord && r.1 is InsertRecord
                    && r.0.compliance == self.compliance,
                TransferEvent::ConversionFailed(e) => r.0.step == TransferStep::Finished && r.1
                    == TransferAction::Fail(e),
                TransferEvent::RecordCommitted => r.0.compliance == self.compliance && if self.cross_border {
                    r.0.step == TransferStep::AwaitingCompliance && r.1 is RunCompliance
                } else {
                    r.0.step == TransferStep::AwaitingDebit && r.1 is DebitSender
                },
                TransferEvent::ComplianceChecked { status, details } => r.0.compliance == Some(status)
                    && match status {
                    ComplianceStatus::Approved => r.0.step == TransferStep::AwaitingDebit && r.1 is DebitSender,
                    ComplianceStatus::PendingReview => r.0.step == TransferStep::Finished && r.1 is ReturnRecord,
                    ComplianceStatus::Rejected => r.0.step == TransferStep::Finished
                        && (r.1 matches TransferAction::MarkFailedAndFail(e) && is_custom_error(
                        e,
                        rejection_text(match details { Some(d) => Some(d@), None => None }),
                    )),
                },
                TransferEvent::ComplianceFailed(e) => r.0.step == TransferStep::Finished && r.1
                    == TransferAction::MarkFailedAndFail(e),
                TransferEvent::SenderDebited { rows_affected } => r.0.compliance == self.compliance
                    && if rows_affected == 0 {
                    r.0.step == TransferStep::Finished && (r.1 matches TransferAction::RollbackAndFail(e)
                        && is_custom_error(e, balance_changed_text()))
                } else {
                    r.0.step == TransferStep::AwaitingCredit && r.1 is CreditRecipient
                },
                TransferEvent::RecipientCredited { rows_affected } => r.0.compliance == self.compliance
                    && if rows_affected == 0 {
                    r.0.step == TransferStep::Finished && (r.1 matches TransferAction::RollbackAndFail(e)
                        && is_custom_error(e, balance_changed_text()))
                } else {
                    r.0.step == TransferStep::AwaitingCompletion && r.1 is CompleteRecord
                },
                TransferEvent::Completed => r.0.step == TransferStep::Finished && r.1 is ReturnRecord
                    && r.0.compliance == self.compliance,
                TransferEvent::StorageFailed(e) => r.0.step == TransferStep::Finished && r.1
                    == TransferAction::Fail(e),
            },
    {
        let mut next = self;
        let action = match event {
            TransferEvent::Converted => {
                next.step = TransferStep::AwaitingRecord;
                TransferAction::InsertRecord
            },
            TransferEvent::ConversionFailed(e) => {
                next.step = TransferStep::Finished;
                TransferAction::Fail(e)
            },
            TransferEvent::RecordCommitted => {
                if next.cross_border {
                    next.step = TransferStep::AwaitingCompliance;
                    TransferAction::RunCompliance
                } else {
                    next.step = TransferStep::AwaitingDebit;
                    TransferAction::DebitSender
                }
            },
            TransferEvent::ComplianceChecked { status, details } => {
                next.compliance = Some(status);
                match status {
                    ComplianceStatus::Approved => {
                        next.step = TransferStep::AwaitingDebit;
                        TransferAction::DebitSender
                    },
                    ComplianceStatus::PendingReview => {
                        next.step = TransferStep::Finished;
                        TransferAction::ReturnRecord
                    },
                    ComplianceStatus::Rejected => {
                        next.step = TransferStep::Finished;
                        let text = match &details {
                            Some(d) => join2("Transaction rejected due to compliance issues: ", d.as_str()),
                            None => join2("Transaction rejected due to compliance issues: ", "No details provided"),
                        };
                        TransferAction::MarkFailedAndFail(DbError::Custom(text))
                    },
                }
            },
            TransferEvent::ComplianceFailed(e) => {
                next.step = TransferStep::Finished;
                TransferAction::MarkFailedAndFail(e)
            },
            TransferEvent::SenderDebited { rows_affected } => {
                match check_balance_update(rows_affected) {
                    Ok(()) => {
                        next.step = TransferStep::AwaitingCredit;
                        TransferAction::CreditRecipient
                    },
                    Err(e) => {
                        next.step = TransferStep::Finished;
                        TransferAction::RollbackAndFail(e)
                    },
                }
            },
            TransferEvent::RecipientCredited { rows_affected } => {
                match check_balance_update(rows_affected) {
                    Ok(()) => {
                        next.step = TransferStep::AwaitingCompletion;
                        TransferAction::CompleteRecord
                    },
                    Err(e) => {
                        next.step = TransferStep::Finished;
                        TransferAction::RollbackAndFail(e)
                    },
                }
            },
            TransferEvent::Completed => {
                next.step = TransferStep::Finished;
                TransferAction::ReturnRecord
            },
            TransferEvent::StorageFailed(e) => {
                next.step = TransferStep::Finished;
                TransferAction::Fail(e)
            },
        };
        (next, action)
    }
}

/// A cross-border transfer reaches the debit, the credit or the
/// completion only after compliance approved it.
pub proof fn money_moves_only_after_approval(t: &CrossBorderTransfer)
    requires
        transfer_wf(t),
        t.cross_border,
        t.step == TransferStep::AwaitingDebit || t.step == TransferStep::AwaitingCredit || t.step
            == TransferStep::AwaitingCompletion,
    ensures
        t.compliance == Some(ComplianceStatus::Approved),
{
}

/// A finished transfer takes no further event: in particular a transfer
/// held for review or rejected by compliance never reaches the debit.
pub proof fn finished_transfer_is_final(event: &TransferEvent)
    ensures
        !expects(TransferStep::Finished, event),
{
}

} // verus!
