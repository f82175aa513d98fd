//! The cache decorator's decisions, and a process-local store it can use.
//!
//! A chain with a cache first reads the store, then either serves what it found
//! or asks its inner provider and stores the fresh answer. The reads and writes
//! of a shared store are outside work; the decisions around them are here.
use vstd::prelude::*;
use crate::model::{CacheStatus, RequestKey, SuggestError, Suggestion, SuggestionRequest, SuggestionResponse, duplicate_all};
use crate::provider::SuggestionProvider;

verus! {

/// What reading the store gave.
#[derive(Debug)]
pub enum CacheLookup {
    /// A fresh entry, with the seconds it has left.
    Found { suggestions: Vec<Suggestion>, remaining: u64 },
    /// No entry, or only an expired one.
    Absent,
    /// The store could not be reached.
    Unreachable,
}

/// What reading the store gave, as plain values.
pub enum LookupView {
    Found(Seq<Suggestion>, u64),
    Absent,
    Unreachable,
}

impl View for CacheLookup {
    type V = LookupView;

    open spec fn view(&self) -> LookupView {
        match self {
            CacheLookup::Found { suggestions, remaining } => LookupView::Found(suggestions@, *remaining),
            CacheLookup::Absent => LookupView::Absent,
            CacheLookup::Unreachable => LookupView::Unreachable,
        }
    }
}

/// What the decorator does after reading the store.
#[derive(Debug)]
pub enum CacheDecision {
    /// Answer from the cache.
    Serve(SuggestionResponse),
    /// Ask the inner provider; store its answer when `store` holds.
    AskInner { store: bool },
}

/// What to write to the store after a miss.
#[derive(Debug)]
pub struct StoreOrder {
    /// The suggestions to keep.
    pub suggestions: Vec<Suggestion>,
    /// For how many seconds.
    pub ttl: u64,
}

/// A cache lookup that serves: the lookup found an entry with time left.
pub open spec fn serves(l: LookupView) -> bool {
    match l {
        LookupView::Found(_, remaining) => remaining > 0,
        _ => false,
    }
}

/// A decorator that serves repeated requests from a store within a freshness
/// window.
pub struct CachingProvider {
    /// Seconds a stored answer stays fresh.
    pub(crate) ttl: u64,
    /// The provider whose answers are cached.
    pub(crate) inner: SuggestionProvider,
}

impl CachingProvider {
    /// Wraps `inner` with a cache whose entries live `ttl` seconds.
    pub fn new_boxed(ttl: u64, inner: SuggestionProvider) -> (r: Box<Self>)
        ensures
            r.ttl() == ttl,
            r.wrapped() == inner,
    {
        Box::new(CachingProvider { ttl, inner })
    }

    /// Seconds a stored answer stays fresh.
    pub closed spec fn ttl(&self) -> u64 {
        self.ttl
    }

    /// The provider this one wraps.
    pub closed spec fn wrapped(&self) -> SuggestionProvider {
        self.inner
    }

    /// What `wrapped` stands for, for the other modules of this crate.
    pub(crate) proof fn lemma_wrapped_is_inner(&self)
        ensures
            self.wrapped() == self.inner,
    {
    }

    /// The provider this one wraps.
    pub fn inner(&self) -> (r: &SuggestionProvider)
        ensures
            *r == self.wrapped(),
    {
        &self.inner
    }

    /// Seconds a stored answer stays fresh.
    pub fn time_to_live(&self) -> (r: u64)
        ensures
            r == self.ttl(),
    {
        self.ttl
    }

    /// Decides from what the store gave: a fresh entry is served as a hit with
    /// the time it has left; otherwise the inner provider is asked, and its
    /// answer stored unless the store could not be reached.
    pub fn on_lookup(&self, lookup: CacheLookup) -> (r: CacheDecision)
        ensures
            serves(lookup@) ==> (r matches CacheDecision::Serve(resp) && match lookup@ {
                LookupView::Found(s, remaining) => resp.suggestions@ == s && resp.cache_status
                    == CacheStatus::Hit && resp.cache_ttl == Some(remaining),
                _ => false,
            }),
            !serves(lookup@) ==> r == (CacheDecision::AskInner {
                store: !(lookup@ is Unreachable),
            }),
    {
        match lookup {
            CacheLookup::Found { suggestions, remaining } => {
                if remaining > 0 {
                    CacheDecision::Serve(
                        SuggestionResponse {
                            suggestions,
                            cache_status: CacheStatus::Hit,
                            cache_ttl: Some(remaining),
                        },
                    )
                } else {
                    CacheDecision::AskInner { store: true }
                }
            },
            CacheLookup::Absent => CacheDecision::AskInner { store: true },
            CacheLookup::Unreachable => CacheDecision::AskInner { store: false },
        }
    }

    /// Finishes a call that asked the inner provider. A failure is handed on
    /// unchanged. A success is a miss, to be stored for the configured TTL,
    /// where the store was reachable; otherwise it is returned uncached with
    /// the status `Error`.
    pub fn on_inner(&self, inner: Result<SuggestionResponse, SuggestError>, store: bool) -> (r: (
        Result<SuggestionResponse, SuggestError>,
        Option<StoreOrder>,
    ))
        ensures
            inner is Err ==> r.0 == inner && r.1.is_none(),
            inner matches Ok(resp) ==> (r.0 matches Ok(out) && out.suggestions@
                == resp.suggestions@ && (if store {
                out.cache_status == CacheStatus::Miss && out.cache_ttl == Some(self.ttl())
                    && (r.1 matches Some(order) && order.suggestions@ == resp.suggestions@
                    && order.ttl == self.ttl())
            } else {
                out.cache_status == CacheStatus::Error && out.cache_ttl.is_none()
                    && r.1.is_none()
            })),
    {
        match inner {
            Err(e) => (Err(e), None),
            Ok(resp) => {
                if store {
                    let order = StoreOrder { suggestions: duplicate_all(&resp.suggestions), ttl: self.ttl };
                    (
                        Ok(
                            SuggestionResponse {
                                suggestions: resp.suggestions,
                                cache_status: CacheStatus::Miss,
                                cache_ttl: Some(self.ttl),
                            },
                        ),
                        Some(order),
                    )
                } else {
                    (
                        Ok(
                            SuggestionResponse {
                                suggestions: resp.suggestions,
                                cache_status: CacheStatus::Error,
                                cache_ttl: None,
                            },
                        ),
                        None,
                    )
                }
            },
        }
    }
}

/// One stored answer.
#[derive(Debug)]
pub struct CacheEntry {
    /// The request it answers.
    pub request: SuggestionRequest,
    /// The stored suggestions.
    pub suggestions: Vec<Suggestion>,
    /// The second at which it expires.
    pub expires_at: u64,
}

/// What a list of entries holds, later entries overriding earlier ones.
pub open spec fn entries_view(e: Seq<CacheEntry>) -> Map<RequestKey, (Seq<Suggestion>, u64)>
    decreases e.len(),
{
    if e.len() == 0 {
        Map::empty()
    } else {
        entries_view(e.drop_last()).insert(
            e.last().request.key(),
            (e.last().suggestions@, e.last().expires_at),
        )
    }
}

/// What a store that holds `m` gives at second `now` for `key`.
pub open spec fn memory_lookup(m: Map<RequestKey, (Seq<Suggestion>, u64)>, key: RequestKey, now: u64) -> LookupView {
    if m.contains_key(key) && m[key].1 > now {
        LookupView::Found(m[key].0, (m[key].1 - now) as u64)
    } else {
        LookupView::Absent
    }
}

/// A process-local store of answers, each with its expiry second.
pub struct MemoryCache {
    entries: Vec<CacheEntry>,
}

impl MemoryCache {
    /// For each request key, the suggestions and expiry second stored last.
    pub closed spec fn view(&self) -> Map<RequestKey, (Seq<Suggestion>, u64)> {
        entries_view(self.entries@)
    }

    /// An empty store.
    pub fn new() -> (r: MemoryCache)
        ensures
            r.view() == Map::<RequestKey, (Seq<Suggestion>, u64)>::empty(),
    {
        MemoryCache { entries: Vec::new() }
    }

    /// Reads the entry of `request` at second `now`: found while it has time
    /// left, absent otherwise.
    pub fn get(&self, request: &SuggestionRequest, now: u64) -> (r: CacheLookup)
        ensures
            r@ == memory_lookup(self.view(), request.key(), now),
    {
        let ghost e = self.entries@;
        let ghost key = request.key();
        let mut i: usize = self.entries.len();
        assert(e.take(i as int) =~= e);
        while i > 0
            invariant
                i <= self.entries.len(),
                e == self.entries@,
                key == request.key(),
                entries_view(e.take(i as int)).contains_key(key) == entries_view(e).contains_key(key),
                entries_view(e).contains_key(key) ==> entries_view(e.take(i as int))[key] == entries_view(e)[key],
            decreases i,
        {
            let entry = &self.entries[i - 1];
            proof {
                assert(e.take(i as int).drop_last() =~= e.take(i - 1));
                assert(e.take(i as int).last() == e[i - 1]);
            }
            if entry.request.same_as(request) {
                if entry.expires_at > now {
                    return CacheLookup::Found {
                        suggestions: duplicate_all(&entry.suggestions),
                        remaining: entry.expires_at - now,
                    };
                } else {
                    return CacheLookup::Absent;
                }
            }
            i = i - 1;
        }
        assert(e.take(0) =~= Seq::<CacheEntry>::empty());
        CacheLookup::Absent
    }

    /// Stores the suggestions for `request`, to expire `ttl` seconds after `now`.
    pub fn set(&mut self, request: &SuggestionRequest, suggestions: Vec<Suggestion>, ttl: u64, now: u64)
        requires
            now + ttl <= u64::MAX,
        ensures
            final(self).view() == old(self).view().insert(
                request.key(),
                (suggestions@, (now + ttl) as u64),
            ),
    {
        let ghost e = self.entries@;
        self.entries.push(CacheEntry { request: request.duplicate(), suggestions, expires_at: now + ttl });
        assert(self.entries@.drop_last() =~= e);
    }
}

/// After this lookup the decorator asks its inner provider and stores the
/// answer: the outcome that makes a call a miss.
pub open spec fn misses(l: LookupView) -> bool {
    !serves(l) && !(l is Unreachable)
}

/// With an empty store a request misses. Once its answer is stored for `ttl`
/// seconds at `t0`, the same request is served that answer, with the time it
/// has left, at any second before `t0 + ttl`, and misses again from then on.
pub proof fn lemma_miss_then_hit_then_expire(
    key: RequestKey,
    s: Seq<Suggestion>,
    ttl: u64,
    t0: u64,
    t1: u64,
    t2: u64,
)
    requires
        t0 + ttl <= u64::MAX,
        t0 <= t1 < t0 + ttl,
        t0 + ttl <= t2,
    ensures
        misses(memory_lookup(Map::empty(), key, t0)),
        ({
            let stored = Map::<RequestKey, (Seq<Suggestion>, u64)>::empty().insert(
                key,
                (s, (t0 + ttl) as u64),
            );
            &&& serves(memory_lookup(stored, key, t1))
            &&& memory_lookup(stored, key, t1) == LookupView::Found(s, (t0 + ttl - t1) as u64)
            &&& misses(memory_lookup(stored, key, t2))
        }),
{
}

/// A store that cannot be reached never serves and never takes an answer.
pub proof fn lemma_unreachable_store_is_bypassed()
    ensures
        !serves(LookupView::Unreachable),
        !misses(LookupView::Unreachable),
{
}

} // verus!
