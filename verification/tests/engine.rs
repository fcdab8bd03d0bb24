use hft_risk_api::engine::{EngineConfig, RiskEngine};
use hft_risk_api::models::{RiskAssessmentRequest, RiskLevel};

fn request(address: &str, chain: &str) -> RiskAssessmentRequest {
    RiskAssessmentRequest {
        contract_address: address.to_string(),
        chain: chain.to_string(),
        transaction_data: None,
        amount: None,
    }
}

#[test]
fn test_engine_creation() {
    let engine = RiskEngine::new();
    let (current, max) = engine.cache_stats();
    assert_eq!(current, 0);
    assert!(max > 0);
}

#[test]
#[allow(unused_comparisons)]
fn test_engine_assess() {
    let mut engine = RiskEngine::new();
    let req = request("0x1234", "ethereum");

    let response = engine.assess(req);
    assert_eq!(response.contract_address, "0x1234");
    assert!(response.processing_time_ms >= 0);
}

#[test]
fn test_engine_caching() {
    let mut engine = RiskEngine::new();
    let req = request("0x5678", "ethereum");

    let response1 = engine.assess(req.clone());
    let time1 = response1.processing_time_ms;

    let response2 = engine.assess(req);
    let time2 = response2.processing_time_ms;

    assert!(time2 <= time1);
}

#[test]
fn test_engine_default_config() {
    let config = EngineConfig::default();
    assert_eq!(config.cache_ttl_secs, 300);
    assert_eq!(config.max_cache_entries, 100_000);
    assert!(config.enable_simd);
    assert!(config.worker_threads >= 1);
}

#[test]
fn test_assess_at_is_deterministic() {
    let mut engine = RiskEngine::with_config(EngineConfig::default());
    let req = request("0x1234", "ethereum");

    let r = engine.assess_at(&req, 1_000, "ts0".to_string());
    assert_eq!(r.contract_address, "0x1234");
    // The address text stands in for the bytecode and trips no rule.
    assert!(r.findings.is_empty());
    assert_eq!(r.risk_score, 0);
    assert!(matches!(r.risk_level, RiskLevel::Low));
    assert_eq!(r.processing_time_ms, 0);
    assert_eq!(r.timestamp, "ts0");

    let (count, _) = engine.cache_stats();
    assert_eq!(count, 1);
}

#[test]
fn test_assess_at_scores_delegatecall_bytecode() {
    let mut engine = RiskEngine::new();
    // The address text holds the delegatecall opcode pattern: one finding
    // at severity 0.75 and confidence 0.85, scoring 63.75 points.
    let req = request("0xf4b2", "ethereum");
    let r = engine.assess_at(&req, 1_000, "ts0".to_string());
    assert_eq!(r.findings.len(), 1);
    assert_eq!(r.findings[0].category, "OWASP-SC03");
    assert_eq!(r.risk_score, 63_750);
    assert!(matches!(r.risk_level, RiskLevel::High));
}

#[test]
fn test_assess_at_hit_returns_stored_result() {
    let mut engine = RiskEngine::new();
    let req = request("0xf4b2", "ethereum");

    let first = engine.assess_at(&req, 1_000, "ts0".to_string());
    // Within the TTL the stored result is served with the original
    // timestamp, not recomputed under the new one.
    let second = engine.assess_at(&req, 2_000, "ts1".to_string());
    assert_eq!(second.risk_score, first.risk_score);
    assert_eq!(second.timestamp, "ts0");
    let (count, _) = engine.cache_stats();
    assert_eq!(count, 1);
}

#[test]
fn test_assess_at_recomputes_after_ttl() {
    let mut engine = RiskEngine::new();
    let req = request("0xf4b2", "ethereum");

    let _ = engine.assess_at(&req, 1_000, "ts0".to_string());
    // One TTL (300 s) later the entry is stale and the result is
    // recomputed with the fresh timestamp.
    let later = engine.assess_at(&req, 1_000 + 300_000, "ts1".to_string());
    assert_eq!(later.timestamp, "ts1");
}

#[test]
fn test_clear_cache() {
    let mut engine = RiskEngine::new();
    let _ = engine.assess_at(&request("0x1", "ethereum"), 1_000, "ts".to_string());
    let _ = engine.assess_at(&request("0x2", "ethereum"), 1_000, "ts".to_string());
    let (count, _) = engine.cache_stats();
    assert_eq!(count, 2);
    engine.clear_cache();
    let (count, _) = engine.cache_stats();
    assert_eq!(count, 0);
}

#[test]
fn test_cache_soft_cap_triggers_cleanup() {
    let config = EngineConfig {
        cache_ttl_secs: 300,
        max_cache_entries: 2,
        enable_simd: true,
        worker_threads: 1,
    };
    let mut engine = RiskEngine::with_config(config);
    // Two entries stored early, both stale by the time the third insert
    // pushes the store over the cap and triggers the cleanup pass.
    let _ = engine.assess_at(&request("0x1", "ethereum"), 0, "ts".to_string());
    let _ = engine.assess_at(&request("0x2", "ethereum"), 0, "ts".to_string());
    let _ = engine.assess_at(&request("0x3", "ethereum"), 400_000, "ts".to_string());
    let (count, _) = engine.cache_stats();
    assert_eq!(count, 1);
}
