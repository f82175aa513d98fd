use merino::cache::{CacheDecision, CacheLookup, CachingProvider, MemoryCache};
use merino::model::{CacheStatus, SuggestError, Suggestion, SuggestionRequest, SuggestionResponse};
use merino::provider::{wiki_fruit, SuggestionProvider};

fn request(query: &str) -> SuggestionRequest {
    SuggestionRequest { query: query.to_string(), accepts_english: true, country: None }
}

/// One call through a cache in front of the development provider, with a
/// process-local store, at second `now`.
fn call(
    cache: &CachingProvider,
    store: &mut MemoryCache,
    req: &SuggestionRequest,
    now: u64,
) -> Result<SuggestionResponse, SuggestError> {
    match cache.on_lookup(store.get(req, now)) {
        CacheDecision::Serve(resp) => Ok(resp),
        CacheDecision::AskInner { store: keep } => {
            let (result, order) = cache.on_inner(Ok(wiki_fruit(req)), keep);
            if let Some(order) = order {
                store.set(req, order.suggestions, order.ttl, now);
            }
            result
        }
    }
}

#[test]
fn miss_then_hit_then_miss_after_expiry() {
    let cache = CachingProvider::new_boxed(300, SuggestionProvider::WikiFruit);
    let mut store = MemoryCache::new();
    let req = request("apple");

    let first = call(&cache, &mut store, &req, 1000).unwrap();
    assert_eq!(first.cache_status, CacheStatus::Miss);
    assert_eq!(first.cache_ttl, Some(300));
    assert_eq!(first.suggestions.len(), 1);

    let second = call(&cache, &mut store, &req, 1010).unwrap();
    assert_eq!(second.cache_status, CacheStatus::Hit);
    assert_eq!(second.cache_ttl, Some(290));
    assert_eq!(second.suggestions, first.suggestions);

    let third = call(&cache, &mut store, &req, 1300).unwrap();
    assert_eq!(third.cache_status, CacheStatus::Miss);
    assert_eq!(third.cache_ttl, Some(300));
}

#[test]
fn different_requests_do_not_share_entries() {
    let cache = CachingProvider::new_boxed(60, SuggestionProvider::WikiFruit);
    let mut store = MemoryCache::new();
    let a = call(&cache, &mut store, &request("apple"), 0).unwrap();
    let b = call(&cache, &mut store, &request("banana"), 1).unwrap();
    assert_eq!(a.cache_status, CacheStatus::Miss);
    assert_eq!(b.cache_status, CacheStatus::Miss);
    let mut other_country = request("apple");
    other_country.country = Some("US".to_string());
    let c = call(&cache, &mut store, &other_country, 2).unwrap();
    assert_eq!(c.cache_status, CacheStatus::Miss);
    let d = call(&cache, &mut store, &request("apple"), 3).unwrap();
    assert_eq!(d.cache_status, CacheStatus::Hit);
    assert_eq!(d.suggestions[0].title, "Wikipedia - apple");
}

#[test]
fn an_unreachable_store_returns_backend_suggestions_tagged_error() {
    let cache = CachingProvider::new_boxed(300, SuggestionProvider::WikiFruit);
    let req = request("banana");
    match cache.on_lookup(CacheLookup::Unreachable) {
        CacheDecision::AskInner { store } => {
            assert!(!store);
            let (result, order) = cache.on_inner(Ok(wiki_fruit(&req)), store);
            let resp = result.unwrap();
            assert_eq!(resp.cache_status, CacheStatus::Error);
            assert_eq!(resp.cache_ttl, None);
            assert_eq!(resp.suggestions.len(), 1);
            assert_eq!(resp.suggestions[0].url, "https://en.wikipedia.org/wiki/banana");
            assert!(order.is_none());
        }
        CacheDecision::Serve(_) => panic!("an unreachable store cannot serve"),
    }
}

#[test]
fn an_entry_with_no_time_left_is_not_served() {
    let cache = CachingProvider::new_boxed(300, SuggestionProvider::WikiFruit);
    let lookup = CacheLookup::Found { suggestions: Vec::new(), remaining: 0 };
    assert!(matches!(cache.on_lookup(lookup), CacheDecision::AskInner { store: true }));
}

#[test]
fn an_inner_failure_is_handed_on() {
    let cache = CachingProvider::new_boxed(300, SuggestionProvider::WikiFruit);
    let (result, order) =
        cache.on_inner(Err(SuggestError::Network("down".to_string())), true);
    assert_eq!(result, Err(SuggestError::Network("down".to_string())));
    assert!(order.is_none());
}

#[test]
fn a_found_entry_is_served_with_its_remaining_time() {
    let cache = CachingProvider::new_boxed(300, SuggestionProvider::WikiFruit);
    let s = Suggestion {
        provider: "p".to_string(),
        title: "t".to_string(),
        full_keyword: "k".to_string(),
        url: "u".to_string(),
        icon: "i".to_string(),
    };
    match cache.on_lookup(CacheLookup::Found { suggestions: vec![s.clone()], remaining: 42 }) {
        CacheDecision::Serve(resp) => {
            assert_eq!(resp.cache_status, CacheStatus::Hit);
            assert_eq!(resp.cache_ttl, Some(42));
            assert_eq!(resp.suggestions, vec![s]);
        }
        CacheDecision::AskInner { .. } => panic!("a fresh entry is served"),
    }
}

#[test]
fn wiki_fruit_knows_three_fruit() {
    let r = wiki_fruit(&request("cherry"));
    assert_eq!(r.suggestions.len(), 1);
    assert_eq!(r.suggestions[0].title, "Wikipedia - cherry");
    assert_eq!(r.suggestions[0].provider, "WikiFruit");
    assert_eq!(r.cache_status, CacheStatus::NoCache);
    assert!(wiki_fruit(&request("durian")).suggestions.is_empty());
}

#[test]
fn a_zero_ttl_is_never_served() {
    let cache = CachingProvider::new_boxed(0, SuggestionProvider::WikiFruit);
    let mut store = MemoryCache::new();
    let req = request("apple");
    let first = call(&cache, &mut store, &req, 50).unwrap();
    assert_eq!(first.cache_status, CacheStatus::Miss);
    assert_eq!(first.cache_ttl, Some(0));
    let second = call(&cache, &mut store, &req, 50).unwrap();
    assert_eq!(second.cache_status, CacheStatus::Miss);
}
