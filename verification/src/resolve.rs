//! Cache-aside resolution of a short code to its destination URL.
//!
//! The resolver consults the cache first, falls back to the persistent
//! store on a miss or on a cache failure, repopulates the cache as a
//! best-effort side effect after a store hit, and only the store's
//! answer decides between `Found` and `NotFound`. The store and the
//! cache are external collaborators, so the flow is written as a step
//! machine: each step says which adapter to ask next, and the caller
//! hands the adapter's reply back. Every transition is verified for
//! every possible reply; in particular a cache failure can never change
//! the outcome, only the latency.

use vstd::prelude::*;

verus! {

/// Seconds a repopulated cache entry is asked to live.
pub const CACHE_TTL_SECS: u64 = 3600;

/// What the cache gave back for a lookup. A failure of the cache itself
/// is its own reply: it must degrade to a miss, never abort resolution.
pub enum CacheGetReply {
    Hit(String),
    Miss,
    Failed,
}

/// What the store gave back for a lookup. An absent code is a `Miss`,
/// not an error; only connectivity loss is `Unavailable`.
pub enum StoreGetReply {
    Hit(String),
    Miss,
    Unavailable,
}

/// Whether the best-effort cache repopulation went through.
pub enum CacheSetReply {
    Stored,
    Failed,
}

/// The answer a redirect is built from.
pub enum RedirectOutcome {
    Found(String),
    NotFound,
}

/// Resolution fails only when the store itself could not be checked:
/// callers must not conflate this with `NotFound`.
pub enum ResolveError {
    StoreUnavailable,
}

/// The resolver's next move. The caller performs the named adapter call
/// and hands the reply to the matching step function.
pub enum ResolveStep {
    /// Ask the cache for the code.
    NeedCacheGet,
    /// Ask the store for the code.
    NeedStoreGet,
    /// Best-effort: store `url` in the cache under the code with the
    /// given time to live, then finish with `Found(url)` whatever the
    /// cache said.
    NeedCacheFill { url: String, ttl_secs: u64 },
    /// Resolution is decided.
    Finished(Result<RedirectOutcome, ResolveError>),
}

/// What a resolution came to, at the specification level.
pub enum ResolutionModel {
    Delivered { url: Seq<char> },
    Absent,
    Unavailable,
}

/// The model of a finished resolution result.
pub open spec fn result_model(r: Result<RedirectOutcome, ResolveError>) -> ResolutionModel {
    match r {
        Ok(RedirectOutcome::Found(u)) => ResolutionModel::Delivered { url: u@ },
        Ok(RedirectOutcome::NotFound) => ResolutionModel::Absent,
        Err(ResolveError::StoreUnavailable) => ResolutionModel::Unavailable,
    }
}

/// What the cache-aside protocol yields from a cache reply and, when
/// the cache did not hit, a store reply: the defining algorithmic
/// choice, cache first, store fallback, and only the store deciding
/// between found and absent.
pub open spec fn outcome_of(c: CacheGetReply, st: StoreGetReply) -> ResolutionModel {
    match c {
        CacheGetReply::Hit(u) => ResolutionModel::Delivered { url: u@ },
        _ => match st {
            StoreGetReply::Hit(u) => ResolutionModel::Delivered { url: u@ },
            StoreGetReply::Miss => ResolutionModel::Absent,
            StoreGetReply::Unavailable => ResolutionModel::Unavailable,
        },
    }
}

/// A cache reply the real cache can give when the store holds `m` and
/// the code asked for is `code`: a hit only ever reflects a mapping of
/// the store (mappings are never deleted nor mutated, so an unexpired
/// entry cannot be stale), while a miss or a failure can always happen
/// (expiry, eviction, outage).
pub open spec fn cache_reply_consistent(
    m: Map<Seq<char>, Seq<char>>,
    code: Seq<char>,
    r: CacheGetReply,
) -> bool {
    match r {
        CacheGetReply::Hit(u) => m.contains_key(code) && m[code] == u@,
        CacheGetReply::Miss => true,
        CacheGetReply::Failed => true,
    }
}

/// A store reply the real store can give when it holds `m`: a hit
/// reflects the mapping, a miss means the code is absent, and
/// unavailability can always happen.
pub open spec fn store_reply_consistent(
    m: Map<Seq<char>, Seq<char>>,
    code: Seq<char>,
    r: StoreGetReply,
) -> bool {
    match r {
        StoreGetReply::Hit(u) => m.contains_key(code) && m[code] == u@,
        StoreGetReply::Miss => !m.contains_key(code),
        StoreGetReply::Unavailable => true,
    }
}

/// An outcome is correct for store `m` and `code` when a delivered URL
/// is the stored one and absence is reported only for a code the store
/// does not hold.
pub open spec fn reflects_store(
    m: Map<Seq<char>, Seq<char>>,
    code: Seq<char>,
    o: ResolutionModel,
) -> bool {
    match o {
        ResolutionModel::Delivered { url } => m.contains_key(code) && m[code] == url,
        ResolutionModel::Absent => !m.contains_key(code),
        ResolutionModel::Unavailable => true,
    }
}

/// Start resolving a short code: the cache is asked first.
pub fn resolve_begin() -> (s: ResolveStep)
    ensures
        s == ResolveStep::NeedCacheGet,
{
    ResolveStep::NeedCacheGet
}

/// Continue after the cache lookup: a hit finishes at once with no
/// store access; a miss, and equally a failure of the cache itself,
/// falls back to the store.
pub fn on_cache_get(r: CacheGetReply) -> (s: ResolveStep)
    ensures
        match r {
            CacheGetReply::Hit(u) => (s matches ResolveStep::Finished(Ok(RedirectOutcome::Found(v)))
                && v@ == u@),
            CacheGetReply::Miss => s == ResolveStep::NeedStoreGet,
            CacheGetReply::Failed => s == ResolveStep::NeedStoreGet,
        },
{
    match r {
        CacheGetReply::Hit(u) => ResolveStep::Finished(Ok(RedirectOutcome::Found(u))),
        CacheGetReply::Miss => ResolveStep::NeedStoreGet,
        CacheGetReply::Failed => ResolveStep::NeedStoreGet,
    }
}

/// Continue after the store lookup: a hit goes on to repopulate the
/// cache with the fixed time to live, a miss is a definitive
/// `NotFound`, and an unavailable store is surfaced as an error
/// distinct from `NotFound`.
pub fn on_store_get(r: StoreGetReply) -> (s: ResolveStep)
    ensures
        match r {
            StoreGetReply::Hit(u) => (s matches ResolveStep::NeedCacheFill { url, ttl_secs }
                && url@ == u@ && ttl_secs == CACHE_TTL_SECS),
            StoreGetReply::Miss => s == ResolveStep::Finished(Ok(RedirectOutcome::NotFound)),
            StoreGetReply::Unavailable => s == ResolveStep::Finished(
                Err(ResolveError::StoreUnavailable),
            ),
        },
{
    match r {
        StoreGetReply::Hit(u) => ResolveStep::NeedCacheFill { url: u, ttl_secs: CACHE_TTL_SECS },
        StoreGetReply::Miss => ResolveStep::Finished(Ok(RedirectOutcome::NotFound)),
        StoreGetReply::Unavailable => ResolveStep::Finished(Err(ResolveError::StoreUnavailable)),
    }
}

/// Finish after the best-effort cache repopulation: the outcome is
/// `Found(url)` whether or not the cache accepted the entry — a cache
/// failure is logged by the caller and never propagated.
pub fn on_cache_fill(url: String, r: CacheSetReply) -> (s: ResolveStep)
    ensures
        s matches ResolveStep::Finished(Ok(RedirectOutcome::Found(v))) && v@ == url@,
{
    match r {
        CacheSetReply::Stored => ResolveStep::Finished(Ok(RedirectOutcome::Found(url))),
        CacheSetReply::Failed => ResolveStep::Finished(Ok(RedirectOutcome::Found(url))),
    }
}

/// One whole resolution, with the adapters' replies given up front:
/// the step machine run to the end. (A live caller queries the store
/// only when the cache did not hit; this run takes the replies as
/// values and so is the protocol on a platter for tests and proofs.)
pub fn resolve_with_replies(cache: CacheGetReply, store: StoreGetReply, fill: CacheSetReply) -> (r:
    Result<RedirectOutcome, ResolveError>)
    ensures
        result_model(r) == outcome_of(cache, store),
{
    let step = on_cache_get(cache);
    match step {
        ResolveStep::Finished(r) => r,
        _ => {
            let step = on_store_get(store);
            match step {
                ResolveStep::NeedCacheFill { url, ttl_secs } => {
                    match on_cache_fill(url, fill) {
                        ResolveStep::Finished(r) => r,
                        _ => Ok(RedirectOutcome::NotFound),
                    }
                },
                ResolveStep::Finished(r) => r,
                _ => Ok(RedirectOutcome::NotFound),
            }
        },
    }
}

/// The key under which a code's entry lives in the cache.
pub fn cache_key(code: &str) -> (r: String)
    ensures
        r@ == "short:"@ + code@,
{
    let mut s = "short:".to_owned();
    s.append(code);
    s
}

/// Round trip: once the store has accepted a creation's offered code —
/// recording `code -> url` — resolving `code` delivers `url`, under any
/// cache reply the cache can then give and any store reply but an
/// outage.
pub proof fn lemma_round_trip(
    before: Map<Seq<char>, Seq<char>>,
    after: Map<Seq<char>, Seq<char>>,
    code: Seq<char>,
    url: Seq<char>,
    c: CacheGetReply,
    st: StoreGetReply,
)
    requires
        crate::create::put_reply_consistent(
            before,
            code,
            url,
            crate::create::StorePutReply::Accepted,
            after,
        ),
        cache_reply_consistent(after, code, c),
        store_reply_consistent(after, code, st),
        !(st matches StoreGetReply::Unavailable),
    ensures
        outcome_of(c, st) == (ResolutionModel::Delivered { url }),
{
}

/// Cache transparency: two resolutions of the same code against the
/// same store contents come to the same answer, whatever each one's
/// cache reply was — populated, missing or failing, the cache can only
/// change latency, never the result.
pub proof fn lemma_cache_transparency(
    m: Map<Seq<char>, Seq<char>>,
    code: Seq<char>,
    c1: CacheGetReply,
    st1: StoreGetReply,
    c2: CacheGetReply,
    st2: StoreGetReply,
)
    requires
        cache_reply_consistent(m, code, c1),
        store_reply_consistent(m, code, st1),
        cache_reply_consistent(m, code, c2),
        store_reply_consistent(m, code, st2),
        !(st1 matches StoreGetReply::Unavailable),
        !(st2 matches StoreGetReply::Unavailable),
    ensures
        outcome_of(c1, st1) == outcome_of(c2, st2),
{
}

/// Cache failure isolation: with the cache failing on every call, the
/// outcome is still correct for the store's contents, and is the very
/// outcome a plain miss would have produced — the store alone decides.
pub proof fn lemma_cache_failure_isolation(
    m: Map<Seq<char>, Seq<char>>,
    code: Seq<char>,
    st: StoreGetReply,
)
    requires
        store_reply_consistent(m, code, st),
    ensures
        reflects_store(m, code, outcome_of(CacheGetReply::Failed, st)),
        outcome_of(CacheGetReply::Failed, st) == outcome_of(CacheGetReply::Miss, st),
{
}

} // verus!
