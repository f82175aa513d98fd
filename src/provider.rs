//! Provider chains: a backend, optionally wrapped by decorators, each of which
//! owns the provider it wraps.
use vstd::prelude::*;
use crate::cache::CachingProvider;
use crate::filter::KeywordFilterProvider;
use crate::model::{CacheStatus, SetupError, Suggestion, SuggestionRequest, SuggestionResponse};
use crate::regex_set::set_compiles;
use crate::settings::{CacheType, ProviderConfig, SuggestionProviderConfig};

verus! {

/// A source of suggestions: a backend, or a decorator around another provider.
pub enum SuggestionProvider {
    /// The development provider with a fixed set of fruit.
    WikiFruit,
    /// The provider backed by the remote-settings data of one collection,
    /// whose suggestions are fetched outside the library.
    RemoteSettings { collection: String },
    /// A decorator that filters through a blocklist.
    KeywordFilter(Box<KeywordFilterProvider>),
    /// A decorator that caches the answers of the provider it wraps.
    Cache(Box<CachingProvider>),
}

/// The name of a provider, showing the whole chain: each decorator's name
/// wraps the name of the provider inside it.
pub closed spec fn name_of(p: SuggestionProvider) -> Seq<char>
    decreases p,
{
    match p {
        SuggestionProvider::WikiFruit => "WikiFruit"@,
        SuggestionProvider::RemoteSettings { .. } => "RemoteSettingsSuggester"@,
        SuggestionProvider::KeywordFilter(f) => "KeywordFilterProvider("@ + name_of(f.inner) + ")"@,
        SuggestionProvider::Cache(c) => "CachingProvider("@ + name_of(c.inner) + ")"@,
    }
}

impl SuggestionProvider {
    /// The provider's name, showing the whole chain.
    pub fn name(&self) -> (r: String)
        ensures
            r@ == name_of(*self),
        decreases self,
    {
        match self {
            SuggestionProvider::WikiFruit => {
                proof {
                    reveal_strlit("WikiFruit");
                }
                String::from_str("WikiFruit")
            },
            SuggestionProvider::RemoteSettings { .. } => {
                proof {
                    reveal_strlit("RemoteSettingsSuggester");
                }
                String::from_str("RemoteSettingsSuggester")
            },
            SuggestionProvider::KeywordFilter(f) => {
                proof {
                    reveal_strlit("KeywordFilterProvider(");
                    reveal_strlit(")");
                }
                let inner = f.inner.name();
                String::from_str("KeywordFilterProvider(").concat(inner.as_str()).concat(")")
            },
            SuggestionProvider::Cache(c) => {
                proof {
                    reveal_strlit("CachingProvider(");
                    reveal_strlit(")");
                }
                let inner = c.inner.name();
                String::from_str("CachingProvider(").concat(inner.as_str()).concat(")")
            },
        }
    }
}

/// The name of a configured backend.
pub open spec fn backend_name(c: SuggestionProviderConfig) -> Seq<char> {
    match c {
        SuggestionProviderConfig::RemoteSettings(_) => "RemoteSettingsSuggester"@,
        SuggestionProviderConfig::WikiFruit(_) => "WikiFruit"@,
    }
}

/// The name of the chain a configuration describes: a keyword filter, if a
/// blocklist is given, around a cache, if the backend uses one, around the
/// backend.
pub open spec fn chain_name(c: ProviderConfig) -> Seq<char> {
    let backend = backend_name(c.backend);
    let cached = if c.backend.cache_type() == CacheType::NoCache {
        backend
    } else {
        "CachingProvider("@ + backend + ")"@
    };
    if c.blocklist is Some {
        "KeywordFilterProvider("@ + cached + ")"@
    } else {
        cached
    }
}

/// Whether the chain a configuration describes can be built: its blocklist,
/// if any, compiles.
pub open spec fn buildable(c: ProviderConfig) -> bool {
    match c.blocklist {
        Some(b) => set_compiles(b.patterns()),
        None => true,
    }
}

/// Builds the chain a configuration describes, in the fixed order: keyword
/// filter, cache, backend. Fails only where the blocklist does not compile.
pub fn build_chain(config: ProviderConfig) -> (r: Result<SuggestionProvider, SetupError>)
    ensures
        r.is_ok() == buildable(config),
        r matches Ok(p) ==> name_of(p) == chain_name(config),
{
    let ProviderConfig { backend, blocklist, cache_ttl } = config;
    let cache = backend.cache();
    let base = match backend {
        SuggestionProviderConfig::RemoteSettings(s) => SuggestionProvider::RemoteSettings {
            collection: s.collection,
        },
        SuggestionProviderConfig::WikiFruit(_) => SuggestionProvider::WikiFruit,
    };
    assert(name_of(base) == backend_name(config.backend));
    let cached = match cache {
        CacheType::NoCache => base,
        _ => {
            let c = CachingProvider::new_boxed(cache_ttl, base);
            proof {
                c.lemma_wrapped_is_inner();
            }
            let p = SuggestionProvider::Cache(c);
            assert(name_of(p) == "CachingProvider("@ + name_of(base) + ")"@);
            p
        },
    };
    assert(cache == CacheType::NoCache ==> name_of(cached) == backend_name(config.backend));
    match blocklist {
        Some(b) => match KeywordFilterProvider::new_boxed(b, cached) {
            Ok(f) => {
                proof {
                    f.lemma_wrapped_is_inner();
                }
                let p = SuggestionProvider::KeywordFilter(f);
                assert(name_of(p) == "KeywordFilterProvider("@ + name_of(cached) + ")"@);
                Ok(p)
            },
            Err(e) => Err(e),
        },
        None => Ok(cached),
    }
}

/// The fruit the development provider knows.
pub open spec fn is_fruit(q: Seq<char>) -> bool {
    q == "apple"@ || q == "banana"@ || q == "cherry"@
}

/// The development provider: one suggestion, pointing at the fruit's
/// encyclopedia page, where the query names a fruit it knows; none otherwise.
pub fn wiki_fruit(request: &SuggestionRequest) -> (r: SuggestionResponse)
    ensures
        r.cache_status == CacheStatus::NoCache,
        r.cache_ttl.is_none(),
        !is_fruit(request.query@) ==> r.suggestions@.len() == 0,
        is_fruit(request.query@) ==> r.suggestions@.len() == 1 && ({
            let s = r.suggestions@[0];
            &&& s.provider@ == "WikiFruit"@
            &&& s.title@ == "Wikipedia - "@ + request.query@
            &&& s.full_keyword@ == request.query@
            &&& s.url@ == "https://en.wikipedia.org/wiki/"@ + request.query@
            &&& s.icon@ == Seq::<char>::empty()
        }),
{
    proof {
        reveal_strlit("apple");
        reveal_strlit("banana");
        reveal_strlit("cherry");
        reveal_strlit("WikiFruit");
        reveal_strlit("Wikipedia - ");
        reveal_strlit("https://en.wikipedia.org/wiki/");
    }
    let q = &request.query;
    let known = *q == String::from_str("apple") || *q == String::from_str("banana") || *q
        == String::from_str("cherry");
    let mut suggestions: Vec<Suggestion> = Vec::new();
    if known {
        suggestions.push(
            Suggestion {
                provider: String::from_str("WikiFruit"),
                title: String::from_str("Wikipedia - ").concat(q.as_str()),
                full_keyword: q.clone(),
                url: String::from_str("https://en.wikipedia.org/wiki/").concat(q.as_str()),
                icon: String::new(),
            },
        );
    }
    SuggestionResponse::new(suggestions)
}

} // verus!
