//! Assessment orchestrator: composes the cache, the scanner and the
//! scoring unit into a single `assess` operation.
//!
//! A request first meets the cache; on a fresh hit the stored result comes
//! back with the hit path's elapsed time, and on a miss the scanner and the
//! scoring unit produce a new result, which is stored and returned.  When
//! the store grows past the configured soft cap after an insert, a cleanup
//! pass removes the stale entries.  `assess_at` carries the whole logic
//! with an explicit clock and timestamp, pinned down for every input;
//! `assess` reads the clock and delegates.

use vstd::prelude::*;
use crate::cache::{
    cache_key_spec, cleanup_spec, lookup_spec, store_spec, ResultCache,
};
use crate::models::{
    findings_view, CachedResponseView, ResponseView, RiskAssessmentRequest,
    RiskAssessmentResponse, RiskLevel, level_of_milli, response_view_wf, FindingView,
};
use crate::scanner::{scan_bytecode_spec, OwaspScanner};
use crate::scoring::{calculate_risk_score, score_milli_spec};

verus! {

/// Engine configuration.
#[derive(Debug, Clone)]
pub struct EngineConfig {
    /// Cache TTL in seconds.
    pub cache_ttl_secs: u64,
    /// Soft cap on live cache entries, enforced lazily after inserts.
    pub max_cache_entries: usize,
    /// Whether the lane-chunked scoring path may be used.
    pub enable_simd: bool,
    /// Worker threads for the surrounding runtime.
    pub worker_threads: usize,
}

/// Relies on `num_cpus::get`: the number of logical CPUs of the running
/// system, documented to be at least one.
#[verifier::external_body]
fn num_cpus_count() -> (r: usize)
    ensures
        r >= 1,
{
    num_cpus::get()
}

impl Default for EngineConfig {
    /// Five minute TTL, one hundred thousand entries, fast path on, one
    /// worker per logical CPU.
    fn default() -> (r: EngineConfig)
        ensures
            r.cache_ttl_secs == 300,
            r.max_cache_entries == 100000,
            r.enable_simd == true,
            r.worker_threads >= 1,
    {
        EngineConfig {
            cache_ttl_secs: 300,
            max_cache_entries: 100000,
            enable_simd: true,
            worker_threads: num_cpus_count(),
        }
    }
}

/// Relies on `std::time::SystemTime::now` and `duration_since`: the wall
/// clock as milliseconds since the Unix epoch.  Nothing is assumed of the
/// value; whoever consumes it must hold for every reading.
#[verifier::external_body]
fn epoch_millis() -> (r: u64) {
    match std::time::SystemTime::now().duration_since(std::time::UNIX_EPOCH) {
        Ok(d) => d.as_millis() as u64,
        Err(_) => 0,
    }
}

/// Relies on `chrono::Utc::now` and `DateTime::to_rfc3339`: the current
/// instant as an RFC 3339 timestamp.  Nothing is assumed of the value.
#[verifier::external_body]
fn now_rfc3339() -> (r: String) {
    chrono::Utc::now().to_rfc3339()
}

/// Findings the engine's scanner produces for a contract: every rule runs,
/// over the address text standing in for the bytecode.
pub open spec fn engine_scan_spec(bytecode: Seq<char>) -> Seq<FindingView> {
    scan_bytecode_spec(true, Seq::<String>::empty(), Seq::<String>::empty(), bytecode)
}

/// Risk engine: scanner, result cache and configuration.
pub struct RiskEngine {
    scanner: OwaspScanner,
    cache: ResultCache,
    config: EngineConfig,
}

impl RiskEngine {
    /// The engine's configuration.
    pub closed spec fn spec_config(self) -> EngineConfig {
        self.config
    }

    /// The cache contents.
    pub closed spec fn cache_model(self) -> Map<Seq<char>, CachedResponseView> {
        self.cache.model()
    }

    /// The cache TTL in seconds.
    pub closed spec fn spec_ttl_secs(self) -> u64 {
        self.config.cache_ttl_secs
    }

    /// The soft cap on live cache entries.
    pub closed spec fn spec_max_entries(self) -> usize {
        self.config.max_cache_entries
    }

    /// The cache is well formed with the configured TTL, and the scanner
    /// runs every rule.
    pub closed spec fn wf(self) -> bool {
        &&& self.cache.wf()
        &&& self.cache.spec_ttl_secs() == self.config.cache_ttl_secs
        &&& self.scanner.spec_config().enable_all == true
        &&& self.scanner.spec_config().enabled_rules@.len() == 0
        &&& self.scanner.spec_config().disabled_rules@.len() == 0
    }

    /// Create an engine with the default configuration.
    pub fn new() -> (r: RiskEngine)
        ensures
            r.wf(),
            forall|k: Seq<char>| !r.cache_model().contains_key(k),
            r.spec_ttl_secs() == 300,
            r.spec_max_entries() == 100000,
    {
        Self::with_config(EngineConfig::default())
    }

    /// Create an engine with a custom configuration.  The cache starts
    /// empty with the configured TTL.
    pub fn with_config(config: EngineConfig) -> (r: RiskEngine)
        ensures
            r.wf(),
            forall|k: Seq<char>| !r.cache_model().contains_key(k),
            r.spec_ttl_secs() == config.cache_ttl_secs,
            r.spec_max_entries() == config.max_cache_entries,
    {
        let scanner = OwaspScanner::new();
        let cache = ResultCache::new(config.cache_ttl_secs);
        RiskEngine { scanner, cache, config }
    }

    /// Assess a request against the clock reading `now_ms` and the given
    /// creation timestamp.  On a fresh cache hit the stored result comes
    /// back unchanged but for a zeroed processing time, and the cache is
    /// untouched.  On a miss the scanner's findings are scored and
    /// classified, the result is stored under the composite key stamped
    /// `now_ms`, and a cleanup pass runs when the store has outgrown the
    /// soft cap.
    pub fn assess_at(&mut self, request: &RiskAssessmentRequest, now_ms: u64, timestamp: String)
        -> (r: RiskAssessmentResponse)
        requires
            old(self).wf(),
        ensures
            final(self).wf(),
            final(self).spec_ttl_secs() == old(self).spec_ttl_secs(),
            final(self).spec_max_entries() == old(self).spec_max_entries(),
            r.wf(),
            r.processing_time_ms == 0,
            ({
                let key = cache_key_spec(request.chain@, request.contract_address@);
                let looked = lookup_spec(
                    old(self).cache_model(),
                    key,
                    now_ms as int,
                    old(self).spec_ttl_secs() as int,
                );
                match looked {
                    Some(cached) => {
                        &&& r@ == (ResponseView { processing_time_ms: 0, ..cached })
                        &&& final(self).cache_model() == old(self).cache_model()
                    },
                    None => {
                        &&& r.contract_address@ == request.contract_address@
                        &&& findings_view(r.findings@) == engine_scan_spec(
                            request.contract_address@,
                        )
                        &&& r.risk_score == score_milli_spec(
                            engine_scan_spec(request.contract_address@),
                        )
                        &&& r.risk_level == level_of_milli(r.risk_score as int)
                        &&& r.timestamp@ == timestamp@
                        &&& ({
                            let stored = store_spec(
                                old(self).cache_model(),
                                key,
                                r@,
                                now_ms as int,
                            );
                            final(self).cache_model() == (if stored.dom().len() > old(
                                self,
                            ).spec_max_entries() {
                                cleanup_spec(
                                    stored,
                                    now_ms as int,
                                    old(self).spec_ttl_secs() as int,
                                )
                            } else {
                                stored
                            })
                        })
                    },
                }
            }),
    {
        match self.cache.get(
            request.chain.as_str(),
            request.contract_address.as_str(),
            now_ms,
        ) {
            Some(mut cached) => {
                cached.processing_time_ms = 0;
                proof {
                    assert(cached.wf());
                }
                cached
            },
            None => {
                let findings = self.scanner.scan_bytecode(
                    request.contract_address.as_str(),
                    request.contract_address.as_str(),
                );
                proof {
                    assert(self.scanner.spec_config().enabled_rules@
                        =~= Seq::<String>::empty());
                    assert(self.scanner.spec_config().disabled_rules@
                        =~= Seq::<String>::empty());
                }
                let risk_score = calculate_risk_score(&findings);
                let risk_level = RiskLevel::from_score(risk_score);
                let response = RiskAssessmentResponse {
                    contract_address: request.contract_address.clone(),
                    risk_score,
                    risk_level,
                    findings,
                    processing_time_ms: 0,
                    timestamp,
                };
                proof {
                    assert(findings_view(response.findings@) =~= engine_scan_spec(
                        request.contract_address@,
                    ));
                    assert(response.wf());
                }
                let stored = response.clone();
                self.cache.put(
                    request.chain.as_str(),
                    request.contract_address.as_str(),
                    stored,
                    now_ms,
                );
                if self.cache.len() > self.config.max_cache_entries {
                    self.cache.cleanup(now_ms);
                }
                response
            },
        }
    }

    /// Assess a request: the cache path and the computation path both
    /// produce a well-formed response, with the elapsed wall-clock time of
    /// this call as its processing time.  On an empty cache the response is
    /// computed for the requested contract address.
    pub fn assess(&mut self, request: RiskAssessmentRequest) -> (r: RiskAssessmentResponse)
        requires
            old(self).wf(),
        ensures
            final(self).wf(),
            final(self).spec_ttl_secs() == old(self).spec_ttl_secs(),
            final(self).spec_max_entries() == old(self).spec_max_entries(),
            r.wf(),
            (forall|k: Seq<char>| !old(self).cache_model().contains_key(k))
                ==> r.contract_address@ == request.contract_address@,
    {
        let start_ms = epoch_millis();
        let timestamp = now_rfc3339();
        let mut response = self.assess_at(&request, start_ms, timestamp);
        let end_ms = epoch_millis();
        response.processing_time_ms = if end_ms >= start_ms {
            end_ms - start_ms
        } else {
            0
        };
        response
    }

    /// Number of live cache entries and the configured soft cap.
    pub fn cache_stats(&self) -> (r: (usize, usize))
        requires
            self.wf(),
        ensures
            r.0 == self.cache_model().dom().len(),
            r.1 == self.spec_max_entries(),
    {
        (self.cache.len(), self.config.max_cache_entries)
    }

    /// Remove every cache entry.
    pub fn clear_cache(&mut self)
        requires
            old(self).wf(),
        ensures
            final(self).wf(),
            final(self).spec_ttl_secs() == old(self).spec_ttl_secs(),
            final(self).spec_max_entries() == old(self).spec_max_entries(),
            forall|k: Seq<char>| !final(self).cache_model().contains_key(k),
    {
        self.cache.clear();
    }
}

} // verus!
