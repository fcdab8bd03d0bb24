use hft_risk_api::models::{RiskLevel, Severity};
use hft_risk_api::scoring::severity_weight;

#[test]
fn test_risk_level_from_score() {
    assert!(matches!(RiskLevel::from_score(10_000), RiskLevel::Low));
    assert!(matches!(RiskLevel::from_score(30_000), RiskLevel::Medium));
    assert!(matches!(RiskLevel::from_score(60_000), RiskLevel::High));
    assert!(matches!(RiskLevel::from_score(90_000), RiskLevel::Critical));
}

#[test]
fn test_risk_level_boundaries() {
    assert!(matches!(RiskLevel::from_score(0), RiskLevel::Low));
    assert!(matches!(RiskLevel::from_score(24_900), RiskLevel::Low));
    assert!(matches!(RiskLevel::from_score(25_000), RiskLevel::Medium));
    assert!(matches!(RiskLevel::from_score(49_900), RiskLevel::Medium));
    assert!(matches!(RiskLevel::from_score(50_000), RiskLevel::High));
    assert!(matches!(RiskLevel::from_score(74_900), RiskLevel::High));
    assert!(matches!(RiskLevel::from_score(75_000), RiskLevel::Critical));
    assert!(matches!(RiskLevel::from_score(100_000), RiskLevel::Critical));
}

#[test]
fn test_risk_tier_exact_boundaries_in_milli_points() {
    assert!(matches!(RiskLevel::from_score(24_999), RiskLevel::Low));
    assert!(matches!(RiskLevel::from_score(25_000), RiskLevel::Medium));
    assert!(matches!(RiskLevel::from_score(49_999), RiskLevel::Medium));
    assert!(matches!(RiskLevel::from_score(50_000), RiskLevel::High));
    assert!(matches!(RiskLevel::from_score(74_999), RiskLevel::High));
    assert!(matches!(RiskLevel::from_score(75_000), RiskLevel::Critical));
}

#[test]
fn test_risk_level_labels() {
    assert_eq!(RiskLevel::Low.label(), "low");
    assert_eq!(RiskLevel::Medium.label(), "medium");
    assert_eq!(RiskLevel::High.label(), "high");
    assert_eq!(RiskLevel::Critical.label(), "critical");
}

#[test]
fn test_risk_level_from_label() {
    assert!(matches!(RiskLevel::from_label("low"), RiskLevel::Low));
    assert!(matches!(RiskLevel::from_label("medium"), RiskLevel::Medium));
    assert!(matches!(RiskLevel::from_label("high"), RiskLevel::High));
    assert!(matches!(RiskLevel::from_label("critical"), RiskLevel::Critical));
    assert!(matches!(RiskLevel::from_label("unknown"), RiskLevel::Critical));
    assert!(matches!(RiskLevel::from_label(""), RiskLevel::Critical));
}

#[test]
fn test_severity_weights() {
    assert_eq!(severity_weight(Severity::Info), 10);
    assert_eq!(severity_weight(Severity::Low), 25);
    assert_eq!(severity_weight(Severity::Medium), 50);
    assert_eq!(severity_weight(Severity::High), 75);
    assert_eq!(severity_weight(Severity::Critical), 100);
}
