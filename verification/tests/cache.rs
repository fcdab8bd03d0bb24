use hft_risk_api::cache::{
    batch_cache_key, cache_key, entry_is_fresh, risk_cache_key, CachedResponse, ResultCache,
};
use hft_risk_api::models::{RiskAssessmentResponse, RiskLevel};

fn sample_response(address: &str, score: u32) -> RiskAssessmentResponse {
    RiskAssessmentResponse {
        contract_address: address.to_string(),
        risk_score: score,
        risk_level: RiskLevel::from_score(score),
        findings: Vec::new(),
        processing_time_ms: 0,
        timestamp: "2024-01-01T00:00:00+00:00".to_string(),
    }
}

#[test]
fn test_risk_cache_key_format() {
    assert_eq!(risk_cache_key("ethereum", "0xABCD"), "risk:ethereum:0xabcd");
    assert_eq!(risk_cache_key("bsc", "0x12ef"), "risk:bsc:0x12ef");
}

#[test]
fn test_batch_cache_key_format() {
    assert_eq!(batch_cache_key("req-17"), "batch:req-17");
}

#[test]
fn test_composite_key_is_case_insensitive() {
    assert_eq!(cache_key("Ethereum", "0xAbCd"), "ethereum:0xabcd");
    assert_eq!(cache_key("ethereum", "0xabcd"), "ethereum:0xabcd");
}

#[test]
fn test_cache_round_trip() {
    let mut cache = ResultCache::new(300);
    let stored = sample_response("0xabc", 42_000);
    cache.put("ethereum", "0xabc", stored, 1_000);

    let got = cache.get("ethereum", "0xabc", 1_000).expect("fresh entry");
    assert_eq!(got.contract_address, "0xabc");
    assert_eq!(got.risk_score, 42_000);
    assert!(matches!(got.risk_level, RiskLevel::Medium));
    assert_eq!(got.timestamp, "2024-01-01T00:00:00+00:00");
}

#[test]
fn test_cache_miss_on_unknown_key() {
    let cache = ResultCache::new(300);
    assert!(cache.get("ethereum", "0xabc", 1_000).is_none());
}

#[test]
fn test_cache_lookup_folds_case() {
    let mut cache = ResultCache::new(300);
    cache.put("Ethereum", "0xAbC", sample_response("0xAbC", 10_000), 1_000);
    assert!(cache.get("ethereum", "0xabc", 1_000).is_some());
}

#[test]
fn test_cache_staleness_without_cleanup() {
    let mut cache = ResultCache::new(300);
    cache.put("ethereum", "0xabc", sample_response("0xabc", 42_000), 1_000);

    // Just inside the TTL the entry is still served.
    assert!(cache.get("ethereum", "0xabc", 1_000 + 299_999).is_some());
    // One TTL past the store instant the same physical entry reads as a
    // miss, even though no cleanup has run.
    assert!(cache.get("ethereum", "0xabc", 1_000 + 300_000).is_none());
    assert_eq!(cache.len(), 1);
}

#[test]
fn test_cache_overwrite_refreshes_entry() {
    let mut cache = ResultCache::new(300);
    cache.put("ethereum", "0xabc", sample_response("0xabc", 10_000), 1_000);
    cache.put("ethereum", "0xabc", sample_response("0xabc", 80_000), 400_000);
    let got = cache.get("ethereum", "0xabc", 400_001).expect("refreshed entry");
    assert_eq!(got.risk_score, 80_000);
    assert_eq!(cache.len(), 1);
}

#[test]
fn test_cleanup_removes_only_stale_entries() {
    let mut cache = ResultCache::new(300);
    cache.put("ethereum", "0xold", sample_response("0xold", 10_000), 0);
    cache.put("ethereum", "0xnew", sample_response("0xnew", 20_000), 400_000);
    assert_eq!(cache.len(), 2);

    cache.cleanup(500_000);
    assert_eq!(cache.len(), 1);
    assert!(cache.get("ethereum", "0xold", 500_000).is_none());
    assert!(cache.get("ethereum", "0xnew", 500_000).is_some());
}

#[test]
fn test_cache_clear() {
    let mut cache = ResultCache::new(300);
    cache.put("ethereum", "0xabc", sample_response("0xabc", 10_000), 1_000);
    cache.clear();
    assert_eq!(cache.len(), 0);
    assert!(cache.get("ethereum", "0xabc", 1_000).is_none());
}

#[test]
fn test_entry_freshness_boundary() {
    let entry = CachedResponse { response: sample_response("0xabc", 0), stored_at_ms: 0 };
    // Whole seconds: 299.999 s old is fresh under a 300 s TTL, 300.0 s is
    // not.
    assert!(entry_is_fresh(&entry, 299_999, 300));
    assert!(!entry_is_fresh(&entry, 300_000, 300));
    // A clock reading before the store instant reads as age zero.
    let later = CachedResponse { response: sample_response("0xabc", 0), stored_at_ms: 10_000 };
    assert!(entry_is_fresh(&later, 5_000, 300));
}
