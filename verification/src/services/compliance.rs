//! Compliance screening of cross-border transfers.
//!
//! The risk score is a sum of fixed weights, counted here in tenths:
//! 5 for a high-risk jurisdiction at either end, 1 for differing
//! countries, 3 for amounts above 10,000 and 1 for amounts above 1,000.

use vstd::prelude::*;
use crate::utils::text::{str_equal, join2};

verus! {
/// Outcome of a compliance check on a cross-border transfer.
#[derive(Debug, Clone, Copy, PartialEq, Eq, Structural)]
pub enum ComplianceStatus {
    Approved,
    Rejected,
    PendingReview,
}

/// The label under which a compliance outcome is stored.
pub open spec fn compliance_status_label(s: ComplianceStatus) -> Seq<char> {
    match s {
        ComplianceStatus::Approved => "APPROVED"@,
        ComplianceStatus::Rejected => "REJECTED"@,
        ComplianceStatus::PendingReview => "PENDING_REVIEW"@,
    }
}

/// The compliance outcome a stored label names, if any.
pub open spec fn parse_compliance_status(s: Seq<char>) -> Option<ComplianceStatus> {
    if s == "APPROVED"@ {
        Some(ComplianceStatus::Approved)
    } else if s == "REJECTED"@ {
        Some(ComplianceStatus::Rejected)
    } else if s == "PENDING_REVIEW"@ {
        Some(ComplianceStatus::PendingReview)
    } else {
        None
    }
}

impl ComplianceStatus {
    /// The stored label of this outcome.
    pub fn as_str(&self) -> (s: &'static str)
        ensures
            s@ == compliance_status_label(*self),
    {
        match self {
            ComplianceStatus::Approved => "APPROVED",
            ComplianceStatus::Rejected => "REJECTED",
            ComplianceStatus::PendingReview => "PENDING_REVIEW",
        }
    }

    /// The stored label of this outcome, as an owned string.
    pub fn to_string(&self) -> (s: String)
        ensures
            s@ == compliance_status_label(*self),
    {
        self.as_str().to_owned()
    }

    /// Reads a stored label; an unknown label is reported as
    /// `Invalid compliance status: <label>`.
    pub fn from_str(s: &str) -> (r: Result<ComplianceStatus, String>)
        ensures
            match r {
                Ok(st) => parse_compliance_status(s@) == Some(st),
                Err(msg) => parse_compliance_status(s@) is None
                    && msg@ == "Invalid compliance status: "@ + s@,
            },
    {
        if str_equal(s, "APPROVED") {
            Ok(ComplianceStatus::Approved)
        } else if str_equal(s, "REJECTED") {
            Ok(ComplianceStatus::Rejected)
        } else if str_equal(s, "PENDING_REVIEW") {
            Ok(ComplianceStatus::PendingReview)
        } else {
            Err(join2("Invalid compliance status: ", s))
        }
    }
}

/// Reading back the label of a compliance outcome gives that outcome again,
/// and a label that reads as an outcome is that outcome's label.
pub proof fn compliance_status_label_roundtrip(st: ComplianceStatus, s: Seq<char>)
    ensures
        parse_compliance_status(compliance_status_label(st)) == Some(st),
        parse_compliance_status(s) == Some(st) ==> s == compliance_status_label(st),
{
    reveal_strlit("APPROVED");
    reveal_strlit("REJECTED");
    reveal_strlit("PENDING_REVIEW");
    assert("APPROVED"@[0] != "REJECTED"@[0]);
    assert("APPROVED"@ != "REJECTED"@);
    assert("APPROVED"@[0] != "PENDING_REVIEW"@[0]);
    assert("APPROVED"@ != "PENDING_REVIEW"@);
    assert("REJECTED"@[0] != "PENDING_REVIEW"@[0]);
    assert("REJECTED"@ != "PENDING_REVIEW"@);
}



/// Jurisdictions that carry extra risk.
pub open spec fn high_risk_countries() -> Seq<Seq<char>> {
    seq!["NK"@, "IR"@, "CU"@, "SY"@, "VE"@]
}

/// Whether a country code names a high-risk jurisdiction.
pub fn is_high_risk_country(country: &str) -> (r: bool)
    ensures
        r == high_risk_countries().contains(country@),
{
    let r = str_equal(country, "NK") || str_equal(country, "IR") || str_equal(country, "CU")
        || str_equal(country, "SY") || str_equal(country, "VE");
    proof {
        let h = high_risk_countries();
        if r {
            if country@ == "NK"@ { assert(h[0] == country@); }
            if country@ == "IR"@ { assert(h[1] == country@); }
            if country@ == "CU"@ { assert(h[2] == country@); }
            if country@ == "SY"@ { assert(h[3] == country@); }
            if country@ == "VE"@ { assert(h[4] == country@); }
        } else {
            assert forall|i: int| 0 <= i < h.len() implies h[i] != country@ by {}
        }
    }
    r
}

/// Size class of a transfer amount.
#[derive(Debug, Clone, Copy, PartialEq, Eq, Structural)]
pub enum AmountBand {
    /// At most 1,000.
    Small,
    /// Above 1,000 and at most 10,000.
    Medium,
    /// Above 10,000.
    Large,
}

/// The facts a compliance decision rests on.
#[derive(Debug, Clone, Copy, PartialEq, Eq, Structural)]
pub struct RiskFactors {
    /// Either end is a high-risk jurisdiction.
    pub high_risk_jurisdiction: bool,
    /// The two countries differ.
    pub cross_border: bool,
    pub amount_band: AmountBand,
}

/// The risk factors of a transfer between two countries.
pub fn assess_risk_factors(source_country: &str, destination_country: &str, amount_band: AmountBand) -> (f: RiskFactors)
    ensures
        f.high_risk_jurisdiction == (high_risk_countries().contains(source_country@)
            || high_risk_countries().contains(destination_country@)),
        f.cross_border == (source_country@ != destination_country@),
        f.amount_band == amount_band,
{
    let high = is_high_risk_country(source_country) || is_high_risk_country(destination_country);
    let cross = !str_equal(source_country, destination_country);
    RiskFactors { high_risk_jurisdiction: high, cross_border: cross, amount_band }
}

/// The risk score in tenths.
pub open spec fn risk_tenths(f: RiskFactors) -> int {
    (if f.high_risk_jurisdiction { 5int } else { 0 }) + (if f.cross_border { 1int } else { 0 }) + match f.amount_band {
        AmountBand::Large => 3int,
        AmountBand::Medium => 1int,
        AmountBand::Small => 0int,
    }
}

/// The status a risk score leads to: above 0.8 rejected, above 0.5 held
/// for manual review, otherwise approved.
pub open spec fn status_for_risk(tenths: int) -> ComplianceStatus {
    if tenths > 8 {
        ComplianceStatus::Rejected
    } else if tenths > 5 {
        ComplianceStatus::PendingReview
    } else {
        ComplianceStatus::Approved
    }
}

/// The explanation recorded with a status.
pub open spec fn details_for_status(s: ComplianceStatus) -> Option<Seq<char>> {
    match s {
        ComplianceStatus::Rejected => Some("Transaction exceeds risk threshold"@),
        ComplianceStatus::PendingReview => Some("Transaction requires manual review"@),
        ComplianceStatus::Approved => None,
    }
}

/// Result of screening a transfer.
#[derive(Debug)]
pub struct ComplianceDecision {
    /// Risk score in tenths (0 to 10).
    pub risk_tenths: u8,
    pub status: ComplianceStatus,
    pub details: Option<String>,
}

/// Screens a transfer: scores its risk factors and decides its status.
pub fn decide_compliance(factors: RiskFactors) -> (d: ComplianceDecision)
    ensures
        d.risk_tenths == risk_tenths(factors),
        d.risk_tenths <= 10,
        d.status == status_for_risk(risk_tenths(factors)),
        match details_for_status(d.status) {
            Some(m) => d.details matches Some(x) && x@ == m,
            None => d.details is None,
        },
{
    let mut risk: u8 = 0;
    if factors.high_risk_jurisdiction {
        risk = risk + 5;
    }
    if factors.cross_border {
        risk = risk + 1;
    }
    match factors.amount_band {
        AmountBand::Large => { risk = risk + 3; },
        AmountBand::Medium => { risk = risk + 1; },
        AmountBand::Small => {},
    }
    if risk > 10 {
        risk = 10;
    }
    if risk > 8 {
        ComplianceDecision {
            risk_tenths: risk,
            status: ComplianceStatus::Rejected,
            details: Some("Transaction exceeds risk threshold".to_owned()),
        }
    } else if risk > 5 {
        ComplianceDecision {
            risk_tenths: risk,
            status: ComplianceStatus::PendingReview,
            details: Some("Transaction requires manual review".to_owned()),
        }
    } else {
        ComplianceDecision { risk_tenths: risk, status: ComplianceStatus::Approved, details: None }
    }
}

/// A cross-border transfer touching a high-risk jurisdiction is never
/// approved automatically; with a large amount it is rejected.
pub proof fn high_risk_cross_border_is_never_auto_approved(f: RiskFactors)
    requires
        f.high_risk_jurisdiction,
        f.cross_border,
    ensures
        status_for_risk(risk_tenths(f)) != ComplianceStatus::Approved,
        f.amount_band == AmountBand::Large ==> status_for_risk(risk_tenths(f)) == ComplianceStatus::Rejected,
{
}

/// Without a high-risk jurisdiction a transfer is always approved: the
/// score stays at or below 0.4.
pub proof fn low_risk_is_approved(f: RiskFactors)
    requires
        !f.high_risk_jurisdiction,
    ensures
        risk_tenths(f) <= 4,
        status_for_risk(risk_tenths(f)) == ComplianceStatus::Approved,
{
}

/// Only a cross-border transfer of a large amount touching a high-risk
/// jurisdiction is rejected.
pub proof fn rejection_needs_every_factor(f: RiskFactors)
    ensures
        status_for_risk(risk_tenths(f)) == ComplianceStatus::Rejected <==> (f.high_risk_jurisdiction
            && f.cross_border && f.amount_band == AmountBand::Large),
{
}


/// Exactly five jurisdictions are high-risk: NK, IR, CU, SY and VE; any
/// other code (US, IN, GB, SG, AE, ...) is not.
pub proof fn high_risk_exactly_five_jurisdictions(country: Seq<char>)
    ensures
        high_risk_countries().contains(country) <==> (country == "NK"@ || country == "IR"@ || country == "CU"@
            || country == "SY"@ || country == "VE"@),
{
    let h = high_risk_countries();
    if country == "NK"@ { assert(h[0] == country); }
    if country == "IR"@ { assert(h[1] == country); }
    if country == "CU"@ { assert(h[2] == country); }
    if country == "SY"@ { assert(h[3] == country); }
    if country == "VE"@ { assert(h[4] == country); }
}

} // verus!
