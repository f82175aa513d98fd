use cadence::{Counted, SpyMetricSink, StatsdClient};
use merino::blocklist::Blocklist;
use merino::filter::{FilterOutcome, KeywordFilterProvider};
use merino::model::{CacheStatus, SuggestError, Suggestion, SuggestionResponse};
use merino::provider::SuggestionProvider;

fn suggestion(title: &str, full_keyword: &str) -> Suggestion {
    Suggestion {
        provider: "TestSuggestionsProvider()".to_string(),
        title: title.to_string(),
        full_keyword: full_keyword.to_string(),
        url: "https://example.com/target".to_string(),
        icon: "https://example.com/icon.png".to_string(),
    }
}

fn backend_response() -> SuggestionResponse {
    SuggestionResponse {
        cache_status: CacheStatus::NoCache,
        cache_ttl: None,
        suggestions: vec![
            suggestion("A test title", "test"),
            suggestion("A suggestion that goes through", "not matched"),
            suggestion("Another suggestion that goes through", "not matched"),
        ],
    }
}

fn filter_with(rules: &[(&str, &str)]) -> Box<KeywordFilterProvider> {
    let mut blocklist = Blocklist::new();
    for (id, pattern) in rules {
        blocklist.insert(id.to_string(), pattern.to_string());
    }
    KeywordFilterProvider::new_boxed(blocklist, SuggestionProvider::WikiFruit)
        .expect("failed to create the keyword filter provider")
}

fn report(outcome: &FilterOutcome, client: &StatsdClient) {
    for hit in &outcome.hits {
        client
            .count_with_tags("keywordfilter.match", hit.count as i64)
            .with_tag("id", &hit.id)
            .try_send()
            .ok();
    }
}

#[test]
fn test_provider_filters() {
    let filter_provider = filter_with(&[("filter_1", "test")]);
    let (rx, sink) = SpyMetricSink::new();
    let metrics_client = StatsdClient::from_sink("merino-test", sink);

    let outcome = filter_provider.filter_response(Ok(backend_response()));
    report(&outcome, &metrics_client);
    let res = outcome.response;

    assert_eq!(res.suggestions.len(), 2);
    assert_eq!(res.suggestions[0].provider, "TestSuggestionsProvider()");
    assert_eq!(res.suggestions[0].title, "A suggestion that goes through");

    assert_eq!(rx.len(), 1);
    let sent = rx.recv().unwrap();
    assert_eq!(
        "merino-test.keywordfilter.match:1|c|#id:filter_1",
        String::from_utf8(sent).unwrap()
    );
}

#[test]
fn test_provider_all_filtered() {
    let filter_provider = filter_with(&[("filter_1", "test"), ("filter_2", "through")]);
    let (rx, sink) = SpyMetricSink::new();
    let metrics_client = StatsdClient::from_sink("merino-test", sink);

    let outcome = filter_provider.filter_response(Ok(backend_response()));
    report(&outcome, &metrics_client);
    let res = outcome.response;

    assert_eq!(res.suggestions.len(), 0);

    assert_eq!(rx.len(), 2);
    let collected_data: Vec<String> = rx
        .iter()
        .take(2)
        .map(|x| String::from_utf8(x).unwrap())
        .collect();
    assert!(collected_data
        .contains(&"merino-test.keywordfilter.match:1|c|#id:filter_1".to_string()));
    assert!(collected_data
        .contains(&"merino-test.keywordfilter.match:2|c|#id:filter_2".to_string()));
}

#[test]
fn test_provider_nothing_filtered() {
    let filter_provider = filter_with(&[("filter_1", "no-match")]);
    let (rx, sink) = SpyMetricSink::new();
    let metrics_client = StatsdClient::from_sink("merino-test", sink);

    let outcome = filter_provider.filter_response(Ok(backend_response()));
    report(&outcome, &metrics_client);

    assert_eq!(outcome.response.suggestions.len(), 3);
    assert!(rx.is_empty());
}

#[test]
fn single_rule_over_two_titles_keeps_one() {
    let filter_provider = filter_with(&[("r1", "test")]);
    let response = SuggestionResponse::new(vec![
        suggestion("A test title", "test"),
        suggestion("A suggestion that goes through", "through"),
    ]);
    let outcome = filter_provider.filter_response(Ok(response));
    assert_eq!(outcome.response.suggestions.len(), 1);
    assert_eq!(outcome.response.suggestions[0].title, "A suggestion that goes through");
    assert_eq!(outcome.hits.len(), 1);
    assert_eq!(outcome.hits[0].id, "r1");
    assert_eq!(outcome.hits[0].count, 1);
}

#[test]
fn two_rules_over_two_titles_keep_none() {
    let filter_provider = filter_with(&[("r1", "test"), ("r2", "through")]);
    let response = SuggestionResponse::new(vec![
        suggestion("A test title", "test"),
        suggestion("A suggestion that goes through", "through"),
    ]);
    let outcome = filter_provider.filter_response(Ok(response));
    assert_eq!(outcome.response.suggestions.len(), 0);
    assert_eq!(outcome.hits.len(), 2);
    assert_eq!((outcome.hits[0].id.as_str(), outcome.hits[0].count), ("r1", 1));
    assert_eq!((outcome.hits[1].id.as_str(), outcome.hits[1].count), ("r2", 1));
}

#[test]
fn matching_ignores_case() {
    let filter_provider = filter_with(&[("r1", "TEST")]);
    let outcome = filter_provider.filter_response(Ok(backend_response()));
    assert_eq!(outcome.response.suggestions.len(), 2);
    assert_eq!(outcome.hits[0].count, 1);
}

#[test]
fn a_title_matching_two_rules_counts_for_both() {
    let filter_provider = filter_with(&[("r1", "test"), ("r2", "title")]);
    let response = SuggestionResponse::new(vec![suggestion("A test title", "test")]);
    let outcome = filter_provider.filter_response(Ok(response));
    assert_eq!(outcome.response.suggestions.len(), 0);
    assert_eq!(outcome.hits.len(), 2);
    assert_eq!(outcome.hits[0].count, 1);
    assert_eq!(outcome.hits[1].count, 1);
}

#[test]
fn rule_order_does_not_change_what_is_blocked() {
    let a = filter_with(&[("r1", "test"), ("r2", "another")]);
    let b = filter_with(&[("r2", "another"), ("r1", "test")]);
    let ra = a.filter_response(Ok(backend_response())).response;
    let rb = b.filter_response(Ok(backend_response())).response;
    assert_eq!(ra.suggestions, rb.suggestions);
    assert_eq!(ra.suggestions.len(), 1);
}

#[test]
fn a_failing_inner_provider_gives_an_empty_list() {
    let filter_provider = filter_with(&[("r1", "test")]);
    let outcome =
        filter_provider.filter_response(Err(SuggestError::Network("unreachable".to_string())));
    assert!(outcome.response.suggestions.is_empty());
    assert_eq!(outcome.response.cache_status, CacheStatus::NoCache);
    assert!(outcome.hits.is_empty());
}

#[test]
fn the_inner_cache_status_is_kept() {
    let filter_provider = filter_with(&[("r1", "test")]);
    let mut response = backend_response();
    response.cache_status = CacheStatus::Hit;
    response.cache_ttl = Some(30);
    let outcome = filter_provider.filter_response(Ok(response));
    assert_eq!(outcome.response.cache_status, CacheStatus::Hit);
    assert_eq!(outcome.response.cache_ttl, Some(30));
}

#[test]
fn an_invalid_pattern_is_a_configuration_error() {
    let mut blocklist = Blocklist::new();
    blocklist.insert("bad".to_string(), "(unclosed".to_string());
    let r = KeywordFilterProvider::new_boxed(blocklist, SuggestionProvider::WikiFruit);
    assert!(matches!(r, Err(merino::model::SetupError::InvalidConfiguration(_))));
}

#[test]
fn inserting_a_known_id_replaces_its_pattern() {
    let mut blocklist = Blocklist::new();
    blocklist.insert("r1".to_string(), "nothing".to_string());
    blocklist.insert("r1".to_string(), "test".to_string());
    assert_eq!(blocklist.len(), 1);
    let filter_provider =
        KeywordFilterProvider::new_boxed(blocklist, SuggestionProvider::WikiFruit).unwrap();
    assert_eq!(filter_provider.rule_count(), 1);
    let outcome = filter_provider.filter_response(Ok(backend_response()));
    assert_eq!(outcome.response.suggestions.len(), 2);
}

#[test]
fn the_filter_name_shows_the_chain() {
    let filter_provider = filter_with(&[("r1", "test")]);
    let chain = SuggestionProvider::KeywordFilter(filter_provider);
    assert_eq!(chain.name(), "KeywordFilterProvider(WikiFruit)");
}

#[test]
fn the_filter_names_itself_around_its_inner_provider() {
    let filter_provider = filter_with(&[("r1", "test")]);
    assert_eq!(filter_provider.name(), "KeywordFilterProvider(WikiFruit)");
}
