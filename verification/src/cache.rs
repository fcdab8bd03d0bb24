//! Result cache: a TTL-bounded associative store of composite keys to prior
//! assessment results, plus the stable key formats of the external
//! key/value store.
//!
//! Staleness is lazy: `get` treats an entry older than the TTL as absent
//! without removing it; `cleanup` is the only path that removes entries.
//! The store itself is `dashmap::DashMap` behind the opaque `EntryMap`
//! wrapper, whose contents are named by `entry_map_model`; all cache logic
//! above that wrapper is verified against the named contents.

use vstd::prelude::*;
use vstd::string::StringExecFns;
use crate::models::{
    CachedResponseView, RiskAssessmentResponse, response_view_wf, ResponseView,
};
use crate::strutil::{lower_of, lowercase};

verus! {

/// Redis cache configuration.
#[derive(Debug, Clone)]
pub struct RedisConfig {
    /// Connection URL of the external store.
    pub url: String,
    /// Connection pool size.
    pub pool_size: usize,
    /// Default TTL for stored entries, in seconds.
    pub default_ttl_secs: u64,
    /// Maximum batch size for pipelined operations.
    pub max_batch_size: usize,
    /// Connection timeout, in seconds.
    pub connection_timeout_secs: u64,
}

impl Default for RedisConfig {
    /// Local store, ten connections, five minute TTL.
    fn default() -> (r: RedisConfig)
        ensures
            r.url@ == "redis://127.0.0.1:6379"@,
            r.pool_size == 10,
            r.default_ttl_secs == 300,
            r.max_batch_size == 100,
            r.connection_timeout_secs == 5,
    {
        RedisConfig {
            url: String::from_str("redis://127.0.0.1:6379"),
            pool_size: 10,
            default_ttl_secs: 300,
            max_batch_size: 100,
            connection_timeout_secs: 5,
        }
    }
}

/// Key of a risk assessment in the external store: stable across process
/// restarts, with the contract address folded to lowercase.
pub fn risk_cache_key(chain: &str, contract_address: &str) -> (r: String)
    ensures
        r@ == "risk:"@ + chain@ + ":"@ + lower_of(contract_address@),
{
    let mut key = String::from_str("risk:");
    key.append(chain);
    key.append(":");
    let lower = lowercase(contract_address);
    key.append(lower.as_str());
    proof {
        assert(key@ =~= "risk:"@ + chain@ + ":"@ + lower_of(contract_address@));
    }
    key
}

/// Key of a batch operation in the external store.
pub fn batch_cache_key(request_id: &str) -> (r: String)
    ensures
        r@ == "batch:"@ + request_id@,
{
    let mut key = String::from_str("batch:");
    key.append(request_id);
    key
}

/// Composite key of the in-process cache: chain and address, both folded to
/// lowercase, joined by a colon.
pub open spec fn cache_key_spec(chain: Seq<char>, address: Seq<char>) -> Seq<char> {
    lower_of(chain) + ":"@ + lower_of(address)
}

/// Build the in-process composite cache key.
pub fn cache_key(chain: &str, address: &str) -> (r: String)
    ensures
        r@ == cache_key_spec(chain@, address@),
{
    let mut key = lowercase(chain);
    key.append(":");
    let lower = lowercase(address);
    key.append(lower.as_str());
    proof {
        assert(key@ =~= cache_key_spec(chain@, address@));
    }
    key
}

/// A prior response together with the instant it was stored, in
/// milliseconds of the cache's clock.
pub struct CachedResponse {
    pub response: RiskAssessmentResponse,
    pub stored_at_ms: u64,
}

impl View for CachedResponse {
    type V = CachedResponseView;

    open spec fn view(&self) -> CachedResponseView {
        CachedResponseView { response: self.response@, stored_at_ms: self.stored_at_ms as int }
    }
}

impl Clone for CachedResponse {
    fn clone(&self) -> (r: Self)
        ensures
            r@ == self@,
    {
        CachedResponse { response: self.response.clone(), stored_at_ms: self.stored_at_ms }
    }
}

/// Age of an entry stored at `stored_at_ms` when the clock reads `now_ms`;
/// a clock running backwards reads as age zero.
pub open spec fn entry_age_ms(stored_at_ms: int, now_ms: int) -> int {
    if now_ms >= stored_at_ms {
        now_ms - stored_at_ms
    } else {
        0
    }
}

/// The entry is younger than the TTL, comparing whole seconds.
pub open spec fn fresh_spec(stored_at_ms: int, now_ms: int, ttl_secs: int) -> bool {
    entry_age_ms(stored_at_ms, now_ms) / 1000 < ttl_secs
}

/// The entry is younger than the TTL.
pub fn entry_is_fresh(e: &CachedResponse, now_ms: u64, ttl_secs: u64) -> (r: bool)
    ensures
        r == fresh_spec(e.stored_at_ms as int, now_ms as int, ttl_secs as int),
{
    let age: u64 = if now_ms >= e.stored_at_ms {
        now_ms - e.stored_at_ms
    } else {
        0
    };
    age / 1000 < ttl_secs
}

/// Concurrent associative store of composite keys to cached responses,
/// backed by `dashmap::DashMap`.  The dashmap mutates through shared
/// references, which no sound contract over named contents can follow, so
/// the map is held in this opaque struct and every mutating wrapper takes
/// an exclusive reference.
#[verifier::external_body]
pub struct EntryMap {
    inner: dashmap::DashMap<String, CachedResponse>,
}

/// The entries the map holds: each stored key maps to the view of its
/// cached response.
pub uninterp spec fn entry_map_model(m: EntryMap) -> Map<Seq<char>, CachedResponseView>;

impl EntryMap {
    /// Relies on `dashmap::DashMap::new`: a fresh map holds nothing.
    #[verifier::external_body]
    pub fn new() -> (r: EntryMap)
        ensures
            forall|k: Seq<char>| !entry_map_model(r).contains_key(k),
    {
        EntryMap { inner: dashmap::DashMap::new() }
    }

    /// Relies on `dashmap::DashMap::get`: hands back a copy of the value
    /// stored under the key, if one is stored.
    #[verifier::external_body]
    pub fn get(&self, key: &String) -> (r: Option<CachedResponse>)
        ensures
            (match r {
                Some(e) => entry_map_model(*self).contains_key(key@) && e@ == entry_map_model(
                    *self,
                )[key@],
                None => !entry_map_model(*self).contains_key(key@),
            }),
    {
        match self.inner.get(key) {
            Some(e) => Some(e.value().clone()),
            None => None,
        }
    }

    /// Relies on `dashmap::DashMap::insert`: stores the value under the
    /// key, replacing any previous value.
    #[verifier::external_body]
    pub fn insert(&mut self, key: String, entry: CachedResponse)
        ensures
            entry_map_model(*final(self)) == entry_map_model(*old(self)).insert(key@, entry@),
    {
        self.inner.insert(key, entry);
    }

    /// Relies on `dashmap::DashMap::len`: the number of stored entries.
    #[verifier::external_body]
    pub fn len(&self) -> (r: usize)
        requires
            entry_map_model(*self).dom().finite(),
        ensures
            r == entry_map_model(*self).dom().len(),
    {
        self.inner.len()
    }

    /// Relies on `dashmap::DashMap::clear`: removes every entry.
    #[verifier::external_body]
    pub fn clear(&mut self)
        ensures
            forall|k: Seq<char>| !entry_map_model(*final(self)).contains_key(k),
    {
        self.inner.clear();
    }

    /// Relies on `dashmap::DashMap::retain`: keeps exactly the entries the
    /// predicate accepts.  The closure only calls the verified freshness
    /// test, so the map keeps exactly its fresh entries.
    #[verifier::external_body]
    pub fn retain_fresh(&mut self, now_ms: u64, ttl_secs: u64)
        ensures
            forall|k: Seq<char>|
                entry_map_model(*final(self)).contains_key(k) <==> (entry_map_model(
                    *old(self),
                ).contains_key(k) && fresh_spec(
                    entry_map_model(*old(self))[k].stored_at_ms,
                    now_ms as int,
                    ttl_secs as int,
                )),
            forall|k: Seq<char>|
                entry_map_model(*final(self)).contains_key(k) ==> entry_map_model(
                    *final(self),
                )[k] == entry_map_model(*old(self))[k],
    {
        self.inner.retain(|_, e| entry_is_fresh(e, now_ms, ttl_secs));
    }
}

/// What a lookup returns over the cache contents: the stored response, if
/// the key is present and its entry is fresh.
pub open spec fn lookup_spec(
    m: Map<Seq<char>, CachedResponseView>,
    key: Seq<char>,
    now_ms: int,
    ttl_secs: int,
) -> Option<ResponseView> {
    if m.contains_key(key) && fresh_spec(m[key].stored_at_ms, now_ms, ttl_secs) {
        Some(m[key].response)
    } else {
        None
    }
}

/// What a store does to the cache contents: insert or overwrite, stamped
/// with the store instant.
pub open spec fn store_spec(
    m: Map<Seq<char>, CachedResponseView>,
    key: Seq<char>,
    resp: ResponseView,
    now_ms: int,
) -> Map<Seq<char>, CachedResponseView> {
    m.insert(key, CachedResponseView { response: resp, stored_at_ms: now_ms })
}

/// Keys of `m` whose entries are fresh at `now_ms`.
pub open spec fn fresh_keys(
    m: Map<Seq<char>, CachedResponseView>,
    now_ms: int,
    ttl_secs: int,
) -> Set<Seq<char>> {
    Set::new(
        |k: Seq<char>|
            m.contains_key(k) && fresh_spec(m[k].stored_at_ms, now_ms, ttl_secs),
    )
}

/// What a cleanup does to the cache contents: every stale entry is removed,
/// every fresh one kept.
pub open spec fn cleanup_spec(
    m: Map<Seq<char>, CachedResponseView>,
    now_ms: int,
    ttl_secs: int,
) -> Map<Seq<char>, CachedResponseView> {
    m.restrict(fresh_keys(m, now_ms, ttl_secs))
}

/// Round trip: a result stored under a key is returned unchanged by an
/// immediate lookup of the same key, for every cache content, key, store
/// instant and positive TTL.
pub proof fn lemma_put_get_round_trip(
    m: Map<Seq<char>, CachedResponseView>,
    key: Seq<char>,
    resp: ResponseView,
    now_ms: int,
    ttl_secs: int,
)
    requires
        ttl_secs >= 1,
    ensures
        lookup_spec(store_spec(m, key, resp, now_ms), key, now_ms, ttl_secs) == Some(resp),
{
}

/// Staleness: once the clock has advanced a full TTL past the store
/// instant, a lookup behaves as a miss, even though no cleanup has removed
/// the entry.
pub proof fn lemma_stale_entry_misses(
    m: Map<Seq<char>, CachedResponseView>,
    key: Seq<char>,
    resp: ResponseView,
    stored_ms: int,
    now_ms: int,
    ttl_secs: int,
)
    requires
        ttl_secs >= 0,
        now_ms >= stored_ms + ttl_secs * 1000,
    ensures
        lookup_spec(store_spec(m, key, resp, stored_ms), key, now_ms, ttl_secs) is None,
{
    let age = entry_age_ms(stored_ms, now_ms);
    assert(age >= ttl_secs * 1000);
    assert(age / 1000 >= ttl_secs) by (nonlinear_arith)
        requires
            age >= ttl_secs * 1000,
    ;
}

/// In-process result cache with lazy TTL expiry.
pub struct ResultCache {
    entries: EntryMap,
    ttl_secs: u64,
}

impl ResultCache {
    /// The cached contents.
    pub closed spec fn model(self) -> Map<Seq<char>, CachedResponseView> {
        entry_map_model(self.entries)
    }

    /// The TTL in seconds.
    pub closed spec fn spec_ttl_secs(self) -> u64 {
        self.ttl_secs
    }

    /// The contents are finitely many entries, each holding a well-formed
    /// response.
    pub open spec fn wf(self) -> bool {
        &&& self.model().dom().finite()
        &&& forall|k: Seq<char>|
            self.model().contains_key(k) ==> response_view_wf(
                (#[trigger] self.model()[k]).response,
            )
    }

    /// Create an empty cache with the given TTL.
    pub fn new(ttl_secs: u64) -> (r: ResultCache)
        ensures
            r.wf(),
            r.model() == Map::<Seq<char>, CachedResponseView>::empty(),
            r.spec_ttl_secs() == ttl_secs,
    {
        let r = ResultCache { entries: EntryMap::new(), ttl_secs };
        proof {
            assert(r.model() =~= Map::<Seq<char>, CachedResponseView>::empty());
        }
        r
    }

    /// Look up the entry stored for this chain and address: a copy of the
    /// stored response if one is present and fresh, a miss otherwise.  A
    /// stale entry is not removed, only passed over.
    pub fn get(&self, chain: &str, address: &str, now_ms: u64) -> (r: Option<
        RiskAssessmentResponse,
    >)
        requires
            self.wf(),
        ensures
            (match r {
                Some(resp) => {
                    &&& lookup_spec(
                        self.model(),
                        cache_key_spec(chain@, address@),
                        now_ms as int,
                        self.spec_ttl_secs() as int,
                    ) == Some(resp@)
                    &&& resp.wf()
                },
                None => lookup_spec(
                    self.model(),
                    cache_key_spec(chain@, address@),
                    now_ms as int,
                    self.spec_ttl_secs() as int,
                ) is None,
            }),
    {
        let key = cache_key(chain, address);
        match self.entries.get(&key) {
            Some(entry) => {
                if entry_is_fresh(&entry, now_ms, self.ttl_secs) {
                    Some(entry.response)
                } else {
                    None
                }
            },
            None => None,
        }
    }

    /// Store a response for this chain and address, unconditionally
    /// overwriting any previous entry, stamped with the store instant.
    pub fn put(&mut self, chain: &str, address: &str, response: RiskAssessmentResponse, now_ms: u64)
        requires
            old(self).wf(),
            response.wf(),
        ensures
            final(self).wf(),
            final(self).spec_ttl_secs() == old(self).spec_ttl_secs(),
            final(self).model() == store_spec(
                old(self).model(),
                cache_key_spec(chain@, address@),
                response@,
                now_ms as int,
            ),
    {
        let key = cache_key(chain, address);
        let ghost resp_view = response@;
        self.entries.insert(key, CachedResponse { response, stored_at_ms: now_ms });
        proof {
            assert(final(self).model() =~= store_spec(
                old(self).model(),
                cache_key_spec(chain@, address@),
                resp_view,
                now_ms as int,
            ));
        }
    }

    /// Remove every entry whose age has reached the TTL; fresh entries are
    /// untouched.
    pub fn cleanup(&mut self, now_ms: u64)
        requires
            old(self).wf(),
        ensures
            final(self).wf(),
            final(self).spec_ttl_secs() == old(self).spec_ttl_secs(),
            final(self).model() == cleanup_spec(
                old(self).model(),
                now_ms as int,
                old(self).spec_ttl_secs() as int,
            ),
    {
        let ttl = self.ttl_secs;
        self.entries.retain_fresh(now_ms, ttl);
        proof {
            let m0 = old(self).model();
            let m1 = self.model();
            let spec_m = cleanup_spec(m0, now_ms as int, ttl as int);
            assert(m1 =~= spec_m);
            assert(m1.dom().finite()) by {
                assert(m1.dom().subset_of(m0.dom())) by {
                    assert(forall|k: Seq<char>|
                        m1.dom().contains(k) ==> m0.dom().contains(k));
                };
                vstd::set_lib::lemma_len_subset(m1.dom(), m0.dom());
            };
        }
    }

    /// The number of entries physically present, stale ones included.
    pub fn len(&self) -> (r: usize)
        requires
            self.wf(),
        ensures
            r == self.model().dom().len(),
    {
        self.entries.len()
    }

    /// Remove every entry.
    pub fn clear(&mut self)
        ensures
            final(self).wf(),
            final(self).spec_ttl_secs() == old(self).spec_ttl_secs(),
            final(self).model() == Map::<Seq<char>, CachedResponseView>::empty(),
    {
        self.entries.clear();
        proof {
            assert(self.model() =~= Map::<Seq<char>, CachedResponseView>::empty());
        }
    }
}

} // verus!
