use payment_system::handlers::transaction::{compliance_access, compliance_parties};
use payment_system::services::compliance::{
    assess_risk_factors, decide_compliance, is_high_risk_country, AmountBand, ComplianceStatus, RiskFactors,
};

#[test]
fn high_risk_jurisdictions() {
    for c in ["NK", "IR", "CU", "SY", "VE"] {
        assert!(is_high_risk_country(c));
    }
    for c in ["IN", "US", "nk", "", "NKK"] {
        assert!(!is_high_risk_country(c));
    }
}

#[test]
fn factors_of_a_transfer() {
    let f = assess_risk_factors("IN", "IR", AmountBand::Large);
    assert_eq!(f, RiskFactors { high_risk_jurisdiction: true, cross_border: true, amount_band: AmountBand::Large });
    let f = assess_risk_factors("IN", "IN", AmountBand::Small);
    assert_eq!(f, RiskFactors { high_risk_jurisdiction: false, cross_border: false, amount_band: AmountBand::Small });
}

#[test]
fn decisions_follow_the_thresholds() {
    let d = decide_compliance(assess_risk_factors("US", "IN", AmountBand::Large));
    assert_eq!(d.risk_tenths, 4);
    assert_eq!(d.status, ComplianceStatus::Approved);
    assert_eq!(d.details, None);

    let d = decide_compliance(assess_risk_factors("US", "IR", AmountBand::Small));
    assert_eq!(d.risk_tenths, 6);
    assert_eq!(d.status, ComplianceStatus::PendingReview);
    assert_eq!(d.details.as_deref(), Some("Transaction requires manual review"));

    let d = decide_compliance(assess_risk_factors("IR", "IR", AmountBand::Large));
    assert_eq!(d.risk_tenths, 8);
    assert_eq!(d.status, ComplianceStatus::PendingReview);

    let d = decide_compliance(assess_risk_factors("US", "IR", AmountBand::Large));
    assert_eq!(d.risk_tenths, 9);
    assert_eq!(d.status, ComplianceStatus::Rejected);
    assert_eq!(d.details.as_deref(), Some("Transaction exceeds risk threshold"));

    let d = decide_compliance(assess_risk_factors("IR", "IR", AmountBand::Small));
    assert_eq!(d.risk_tenths, 5);
    assert_eq!(d.status, ComplianceStatus::Approved);
}

/// The score as the service computes it in floating point.
fn float_score(f: &RiskFactors) -> f64 {
    let mut risk: f64 = 0.0;
    if f.high_risk_jurisdiction {
        risk += 0.5;
    }
    if f.cross_border {
        risk += 0.1;
    }
    match f.amount_band {
        AmountBand::Large => risk += 0.3,
        AmountBand::Medium => risk += 0.1,
        AmountBand::Small => {}
    }
    risk.min(1.0)
}

#[test]
fn tenths_agree_with_the_floating_point_thresholds() {
    for high in [false, true] {
        for cross in [false, true] {
            for band in [AmountBand::Small, AmountBand::Medium, AmountBand::Large] {
                let f = RiskFactors { high_risk_jurisdiction: high, cross_border: cross, amount_band: band };
                let score = float_score(&f);
                let expected = if score > 0.8 {
                    ComplianceStatus::Rejected
                } else if score > 0.5 {
                    ComplianceStatus::PendingReview
                } else {
                    ComplianceStatus::Approved
                };
                let d = decide_compliance(f);
                assert_eq!(d.status, expected);
                assert!((score - d.risk_tenths as f64 / 10.0).abs() < 1e-9);
            }
        }
    }
}

#[test]
fn compliance_labels_round_trip() {
    for s in [ComplianceStatus::Approved, ComplianceStatus::Rejected, ComplianceStatus::PendingReview] {
        assert_eq!(ComplianceStatus::from_str(s.as_str()), Ok(s));
    }
    assert_eq!(ComplianceStatus::PendingReview.to_string(), "PENDING_REVIEW");
    assert_eq!(
        ComplianceStatus::from_str("approved"),
        Err("Invalid compliance status: approved".to_string())
    );
}

#[test]
fn compliance_record_access_needs_an_own_cross_border_transfer() {
    let owned = vec![
        ("t-1".to_string(), Some(false)),
        ("t-2".to_string(), Some(true)),
        ("t-3".to_string(), None),
        ("t-2".to_string(), Some(false)),
    ];
    assert_eq!(compliance_access(&owned, "t-2"), Ok(1));
    assert_eq!(
        compliance_access(&owned, "t-9"),
        Err("Transaction not found or does not belong to this user".to_string())
    );
    assert_eq!(
        compliance_access(&owned, "t-1"),
        Err("This transaction does not have compliance check information".to_string())
    );
    assert_eq!(
        compliance_access(&owned, "t-3"),
        Err("This transaction does not have compliance check information".to_string())
    );
    assert!(compliance_access(&Vec::new(), "t-1").is_err());
}

#[test]
fn compliance_parties_report_countries_or_refuse_in_order() {
    assert_eq!(
        compliance_parties(true, Some(Some("IN".to_string())), Some(None)),
        Ok(("IN".to_string(), "UNKNOWN".to_string()))
    );
    assert_eq!(
        compliance_parties(false, Some(Some("IN".to_string())), Some(None)),
        Err("No compliance information found for this transaction".to_string())
    );
    assert_eq!(compliance_parties(true, None, None), Err("Sender account not found".to_string()));
    assert_eq!(
        compliance_parties(true, Some(None), None),
        Err("Receiver account not found".to_string())
    );
}
