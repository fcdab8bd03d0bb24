use hft_risk_api::models::{RiskFinding, Severity};
use hft_risk_api::scoring::{
    calculate_risk_score, calculate_risk_score_lanes, calculate_risk_score_scalar,
};

fn finding(severity: Severity, confidence: u32) -> RiskFinding {
    RiskFinding {
        category: "OWASP-SC01".to_string(),
        severity,
        description: "test finding".to_string(),
        location: None,
        confidence,
    }
}

#[test]
fn test_empty_findings_score_zero() {
    let findings: Vec<RiskFinding> = Vec::new();
    assert_eq!(calculate_risk_score(&findings), 0);
    assert_eq!(calculate_risk_score_scalar(&findings), 0);
    assert_eq!(calculate_risk_score_lanes(&findings, 4), 0);
}

#[test]
fn test_single_critical_full_confidence_scores_full_scale() {
    // One finding at severity weight 1.00 and confidence 1.0: the mean
    // contribution is the whole scale.
    let findings = vec![finding(Severity::Critical, 10_000)];
    assert_eq!(calculate_risk_score(&findings), 100_000);
}

#[test]
fn test_single_info_half_confidence_exact_value() {
    // 0.5 * 0.10 * 100 = 5.0 points = 5000 milli-points.
    let findings = vec![finding(Severity::Info, 5_000)];
    assert_eq!(calculate_risk_score(&findings), 5_000);
}

#[test]
fn test_uniform_high_findings_exact_value() {
    // Ten findings at 0.8 * 0.75: mean contribution 0.6, so 60 points.
    let findings: Vec<RiskFinding> = (0..10).map(|_| finding(Severity::High, 8_000)).collect();
    assert_eq!(calculate_risk_score(&findings), 60_000);
}

#[test]
fn test_vector_and_scalar_paths_agree() {
    // A ragged mix long enough to cover full chunks and a remainder for
    // both lane widths.
    let severities = [
        Severity::Info,
        Severity::Low,
        Severity::Medium,
        Severity::High,
        Severity::Critical,
    ];
    let mut findings = Vec::new();
    for i in 0..23u32 {
        findings.push(finding(severities[(i % 5) as usize], (i * 400) % 10_001));
    }
    let scalar = calculate_risk_score_scalar(&findings);
    let lanes8 = calculate_risk_score_lanes(&findings, 8);
    let lanes4 = calculate_risk_score_lanes(&findings, 4);
    let dispatched = calculate_risk_score(&findings);
    assert_eq!(scalar, lanes8);
    assert_eq!(scalar, lanes4);
    assert_eq!(scalar, dispatched);
}

#[test]
fn test_score_stays_in_scale() {
    let mut findings = Vec::new();
    for _ in 0..100 {
        findings.push(finding(Severity::Critical, 10_000));
    }
    let score = calculate_risk_score(&findings);
    assert!(score <= 100_000);
    assert_eq!(score, 100_000);
}
