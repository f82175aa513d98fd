use merino::blocklist::Blocklist;
use merino::model::{CacheStatus, SuggestError, Suggestion, SuggestionResponse};
use merino::registry::{merge_answers, ProviderAnswer, ProviderRegistry};
use merino::settings::{AdmRsSettings, CacheType, ProviderConfig, SuggestionProviderConfig, WikiFruitSettings};

fn wiki(enabled: bool, cache: CacheType, blocklist: Option<Blocklist>) -> ProviderConfig {
    ProviderConfig {
        backend: SuggestionProviderConfig::WikiFruit(WikiFruitSettings { enabled, cache }),
        blocklist,
        cache_ttl: 300,
    }
}

fn remote(collection: &str) -> ProviderConfig {
    ProviderConfig {
        backend: SuggestionProviderConfig::RemoteSettings(AdmRsSettings {
            enabled: true,
            storage_path: "/tmp/rs".to_string(),
            server: None,
            collection: collection.to_string(),
            cache: CacheType::Redis,
        }),
        blocklist: None,
        cache_ttl: 60,
    }
}

fn blocklist(pattern: &str) -> Blocklist {
    let mut b = Blocklist::new();
    b.insert("rule".to_string(), pattern.to_string());
    b
}

#[test]
fn a_misconfigured_provider_does_not_keep_others_out() {
    let configs = vec![
        ("fruit".to_string(), wiki(true, CacheType::Memory, Some(blocklist("apple")))),
        ("broken".to_string(), wiki(true, CacheType::NoCache, Some(blocklist("(unclosed")))),
        ("adm".to_string(), remote("quicksuggest")),
        ("off".to_string(), wiki(false, CacheType::NoCache, None)),
    ];
    let (registry, failures) = ProviderRegistry::build(configs);
    assert_eq!(registry.len(), 2);
    assert_eq!(failures.len(), 1);
    assert_eq!(failures[0].name, "broken");

    let (name, chain) = registry.entry(0);
    assert_eq!(name, "fruit");
    assert_eq!(chain.name(), "KeywordFilterProvider(CachingProvider(WikiFruit))");
    let (name, chain) = registry.entry(1);
    assert_eq!(name, "adm");
    assert_eq!(chain.name(), "CachingProvider(RemoteSettingsSuggester)");

    assert!(registry.get(&"adm".to_string()).is_some());
    assert!(registry.get(&"broken".to_string()).is_none());
    assert!(registry.get(&"off".to_string()).is_none());
}

fn suggestion(provider: &str, title: &str) -> Suggestion {
    Suggestion {
        provider: provider.to_string(),
        title: title.to_string(),
        full_keyword: title.to_string(),
        url: String::new(),
        icon: String::new(),
    }
}

#[test]
fn fan_out_keeps_healthy_providers_when_one_fails() {
    let answers = vec![
        ProviderAnswer {
            name: "one".to_string(),
            result: Ok(SuggestionResponse::new(vec![suggestion("one", "a"), suggestion("one", "b")])),
        },
        ProviderAnswer {
            name: "two".to_string(),
            result: Err(SuggestError::Network("timeout".to_string())),
        },
        ProviderAnswer {
            name: "three".to_string(),
            result: Ok(SuggestionResponse {
                suggestions: vec![suggestion("three", "c")],
                cache_status: CacheStatus::Hit,
                cache_ttl: Some(10),
            }),
        },
    ];
    let merged = merge_answers(answers);
    let titles: Vec<&str> = merged.suggestions.iter().map(|s| s.title.as_str()).collect();
    assert_eq!(titles, vec!["a", "b", "c"]);
    assert_eq!(merged.failed, vec!["two".to_string()]);
    assert_eq!(
        merged.statuses,
        vec![("one".to_string(), CacheStatus::NoCache), ("three".to_string(), CacheStatus::Hit)]
    );
}

#[test]
fn fan_out_over_nothing_is_empty() {
    let merged = merge_answers(Vec::new());
    assert!(merged.suggestions.is_empty());
    assert!(merged.failed.is_empty());
    assert!(merged.statuses.is_empty());
}

use merino::settings::SentrySettings;

#[test]
fn sentry_modes() {
    let release = SentrySettings::Release { dsn: "https://key@sentry.example/2".to_string(), env: "prod".to_string() };
    assert_eq!(release.dsn(), Some("https://key@sentry.example/2".to_string()));
    assert!(!release.debug());
    assert_eq!(release.env(), "prod");
    assert_eq!(SentrySettings::Debug.dsn(), Some("https://public@example.com/1".to_string()));
    assert!(SentrySettings::Debug.debug());
    assert_eq!(SentrySettings::Debug.env(), "debug");
    assert_eq!(SentrySettings::Disabled.dsn(), None);
    assert!(!SentrySettings::Disabled.debug());
    assert_eq!(SentrySettings::Disabled.env(), "disabled");
}
