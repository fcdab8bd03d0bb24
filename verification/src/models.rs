//! Data model: findings, severities, risk levels, requests, responses and the
//! plain configuration records.
//!
//! Scores are integers in thousandths of a point on the 0..=100 scale
//! ("milli-points"), and confidences are integers in basis points
//! (0..=10_000 stands for 0.0..=1.0), so that every numeric contract is
//! exact.

use vstd::prelude::*;
use vstd::string::StringExecFns;
use crate::strutil::str_eq;

verus! {

/// Severity of an individual finding.
#[derive(Clone, Copy, Debug, PartialEq, Eq, Structural)]
pub enum Severity {
    Info,
    Low,
    Medium,
    High,
    Critical,
}

/// Risk level classification derived from a score.
#[derive(Clone, Copy, Debug, PartialEq, Eq, Structural)]
pub enum RiskLevel {
    Low,
    Medium,
    High,
    Critical,
}

/// Upper bound of a score in milli-points: 100.0 points.
pub const SCORE_MAX_MILLI: u32 = 100000;

/// Upper bound of a confidence in basis points: 1.0.
pub const CONFIDENCE_MAX_BP: u32 = 10000;

/// Tier of a score given in milli-points: the lower bound of each tier is
/// inclusive, its upper bound exclusive.
pub open spec fn level_of_milli(score: int) -> RiskLevel {
    if score < 25000 {
        RiskLevel::Low
    } else if score < 50000 {
        RiskLevel::Medium
    } else if score < 75000 {
        RiskLevel::High
    } else {
        RiskLevel::Critical
    }
}

/// Lowercase wire label of a risk level.
pub open spec fn level_label_spec(level: RiskLevel) -> Seq<char> {
    match level {
        RiskLevel::Low => "low"@,
        RiskLevel::Medium => "medium"@,
        RiskLevel::High => "high"@,
        RiskLevel::Critical => "critical"@,
    }
}

/// Risk level denoted by a wire label; anything unknown is read as the most
/// severe level.
pub open spec fn level_of_label_spec(s: Seq<char>) -> RiskLevel {
    if s == "low"@ {
        RiskLevel::Low
    } else if s == "medium"@ {
        RiskLevel::Medium
    } else if s == "high"@ {
        RiskLevel::High
    } else {
        RiskLevel::Critical
    }
}

impl RiskLevel {
    /// Classify a score given in milli-points.
    pub fn from_score(score: u32) -> (r: RiskLevel)
        ensures
            r == level_of_milli(score as int),
    {
        if score < 25000 {
            RiskLevel::Low
        } else if score < 50000 {
            RiskLevel::Medium
        } else if score < 75000 {
            RiskLevel::High
        } else {
            RiskLevel::Critical
        }
    }

    /// The lowercase wire label of this level.
    pub fn label(&self) -> (r: String)
        ensures
            r@ == level_label_spec(*self),
    {
        match self {
            RiskLevel::Low => String::from_str("low"),
            RiskLevel::Medium => String::from_str("medium"),
            RiskLevel::High => String::from_str("high"),
            RiskLevel::Critical => String::from_str("critical"),
        }
    }

    /// Read a level back from its wire label.
    pub fn from_label(s: &str) -> (r: RiskLevel)
        ensures
            r == level_of_label_spec(s@),
    {
        if str_eq(s, "low") {
            RiskLevel::Low
        } else if str_eq(s, "medium") {
            RiskLevel::Medium
        } else if str_eq(s, "high") {
            RiskLevel::High
        } else {
            RiskLevel::Critical
        }
    }
}

/// Mathematical image of a finding.
#[verifier::ext_equal]
pub ghost struct FindingView {
    pub category: Seq<char>,
    pub severity: Severity,
    pub description: Seq<char>,
    pub location: Option<Seq<char>>,
    pub confidence: int,
}

/// Individual risk finding. `confidence` is in basis points.
pub struct RiskFinding {
    pub category: String,
    pub severity: Severity,
    pub description: String,
    pub location: Option<String>,
    pub confidence: u32,
}

impl View for RiskFinding {
    type V = FindingView;

    open spec fn view(&self) -> FindingView {
        FindingView {
            category: self.category@,
            severity: self.severity,
            description: self.description@,
            location: match self.location {
                Some(l) => Some(l@),
                None => None,
            },
            confidence: self.confidence as int,
        }
    }
}

impl RiskFinding {
    /// A finding is well formed when its confidence does not exceed 1.0.
    pub open spec fn wf(self) -> bool {
        self.confidence <= CONFIDENCE_MAX_BP
    }
}

impl Clone for RiskFinding {
    fn clone(&self) -> (r: Self)
        ensures
            r == *self,
    {
        RiskFinding {
            category: self.category.clone(),
            severity: self.severity,
            description: self.description.clone(),
            location: match &self.location {
                Some(l) => Some(l.clone()),
                None => None,
            },
            confidence: self.confidence,
        }
    }
}

/// The image of a finding sequence.
pub open spec fn findings_view(findings: Seq<RiskFinding>) -> Seq<FindingView> {
    findings.map_values(|f: RiskFinding| f@)
}

/// The image of an optional finding.
pub open spec fn finding_view_opt(r: Option<RiskFinding>) -> Option<FindingView> {
    match r {
        Some(f) => Some(f@),
        None => None,
    }
}

/// An optional finding is well formed when a present finding is.
pub open spec fn opt_finding_wf(r: Option<RiskFinding>) -> bool {
    match r {
        Some(f) => f.wf(),
        None => true,
    }
}

/// Every finding of the sequence is well formed.
pub open spec fn findings_wf(findings: Seq<RiskFinding>) -> bool {
    forall|i: int| 0 <= i < findings.len() ==> (#[trigger] findings[i]).wf()
}

/// Risk assessment request.
#[derive(Clone)]
pub struct RiskAssessmentRequest {
    /// Contract address to assess.
    pub contract_address: String,
    /// Blockchain network (ethereum, solana, bsc, and so on).
    pub chain: String,
    /// Optional transaction data for context.
    pub transaction_data: Option<String>,
    /// Optional amount being transacted, in the smallest integral unit.
    pub amount: Option<u64>,
}

/// Mathematical image of a response.
#[verifier::ext_equal]
pub ghost struct ResponseView {
    pub contract_address: Seq<char>,
    pub risk_score: int,
    pub risk_level: RiskLevel,
    pub findings: Seq<FindingView>,
    pub processing_time_ms: int,
    pub timestamp: Seq<char>,
}

/// Risk assessment response. `risk_score` is in milli-points.
pub struct RiskAssessmentResponse {
    pub contract_address: String,
    pub risk_score: u32,
    pub risk_level: RiskLevel,
    pub findings: Vec<RiskFinding>,
    pub processing_time_ms: u64,
    pub timestamp: String,
}

impl View for RiskAssessmentResponse {
    type V = ResponseView;

    open spec fn view(&self) -> ResponseView {
        ResponseView {
            contract_address: self.contract_address@,
            risk_score: self.risk_score as int,
            risk_level: self.risk_level,
            findings: findings_view(self.findings@),
            processing_time_ms: self.processing_time_ms as int,
            timestamp: self.timestamp@,
        }
    }
}

/// A finding image is well formed when its confidence does not exceed 1.0.
pub open spec fn finding_view_wf(f: FindingView) -> bool {
    0 <= f.confidence <= CONFIDENCE_MAX_BP as int
}

/// Every finding image of the sequence is well formed.
pub open spec fn findings_view_wf(s: Seq<FindingView>) -> bool {
    forall|i: int| 0 <= i < s.len() ==> finding_view_wf(#[trigger] s[i])
}

/// A response image is well formed when its score is within scale, its
/// level matches its score, and its findings are well formed.
pub open spec fn response_view_wf(v: ResponseView) -> bool {
    &&& 0 <= v.risk_score <= SCORE_MAX_MILLI as int
    &&& v.risk_level == level_of_milli(v.risk_score)
    &&& findings_view_wf(v.findings)
}

/// Mathematical image of a cached response: the response with the instant
/// it was stored.
#[verifier::ext_equal]
pub ghost struct CachedResponseView {
    pub response: ResponseView,
    pub stored_at_ms: int,
}

impl RiskAssessmentResponse {
    /// A response is well formed when its score is within scale, its level
    /// matches its score, and its findings are well formed.
    pub open spec fn wf(self) -> bool {
        response_view_wf(self@)
    }
}

impl Clone for RiskAssessmentResponse {
    fn clone(&self) -> (r: Self)
        ensures
            r@ == self@,
            r.risk_score == self.risk_score,
            r.risk_level == self.risk_level,
            r.processing_time_ms == self.processing_time_ms,
    {
        let findings = self.findings.clone();
        proof {
            assert(forall|i: int|
                0 <= i < self.findings@.len() ==> findings@[i] == self.findings@[i]) by {
                assert(forall|i: int|
                    0 <= i < self.findings@.len() ==> vstd::pervasive::cloned::<RiskFinding>(
                        self.findings@[i],
                        findings@[i],
                    ));
            };
            assert(findings@ =~= self.findings@);
        }
        RiskAssessmentResponse {
            contract_address: self.contract_address.clone(),
            risk_score: self.risk_score,
            risk_level: self.risk_level,
            findings,
            processing_time_ms: self.processing_time_ms,
            timestamp: self.timestamp.clone(),
        }
    }
}

/// Contract metadata.
pub struct ContractMetadata {
    pub address: String,
    pub chain: String,
    pub verified: bool,
    pub compiler_version: Option<String>,
    pub creation_timestamp: Option<i64>,
}

/// Application configuration.
pub struct AppConfig {
    pub bind_address: String,
    pub target_latency_ms: u64,
    pub redis_url: String,
    pub max_concurrent_requests: usize,
    pub worker_threads: usize,
}

} // verus!
