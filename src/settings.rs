//! Settings that describe providers and the services around them.
use vstd::prelude::*;
use crate::blocklist::Blocklist;

verus! {

/// Which cache, if any, a provider uses.
#[derive(Clone, Copy, Debug, PartialEq, Eq, Structural)]
pub enum CacheType {
    /// No cache.
    NoCache,
    /// A shared Redis store.
    Redis,
    /// A store local to the process.
    Memory,
}

/// Settings of the provider backed by remote-settings data.
#[derive(Clone, Debug, PartialEq, Eq)]
pub struct AdmRsSettings {
    /// Whether this provider should be active.
    pub enabled: bool,
    /// The path, relative or absolute, where remote-settings data is stored.
    pub storage_path: String,
    /// The server to sync from; the client's default when absent.
    pub server: Option<String>,
    /// The collection to sync from.
    pub collection: String,
    /// Which cache, if any, to use with this provider.
    pub cache: CacheType,
}

/// Settings of the development provider.
#[derive(Clone, Debug, PartialEq, Eq)]
pub struct WikiFruitSettings {
    /// Whether this provider should be active.
    pub enabled: bool,
    /// Which cache, if any, to use with this provider.
    pub cache: CacheType,
}

/// Settings for connecting to Redis.
#[derive(Clone, Debug, PartialEq, Eq)]
pub struct RedisSettings {
    /// The URL to connect to, such as `redis://127.0.0.1/db`.
    pub url: String,
}

/// Settings for connecting to Remote Settings.
#[derive(Clone, Debug, PartialEq, Eq)]
pub struct RemoteSettingsGlobalSettings {
    /// The path, relative or absolute, where remote-settings data is stored.
    pub storage_path: String,
    /// The server to sync from; the client's default when absent.
    pub server: Option<String>,
}

/// Settings used to find the location of a request.
#[derive(Clone, Debug, PartialEq, Eq)]
pub struct LocationSettings {
    /// The location database; no location is computed when absent.
    pub maxmind_database: Option<String>,
}

/// Settings for the HTTP server.
#[derive(Clone, Debug, PartialEq, Eq)]
pub struct HttpSettings {
    /// The host and port to listen on, such as "127.0.0.1:8080".
    pub listen: String,
    /// The number of workers; one per logical core when absent.
    pub workers: Option<usize>,
}

/// Settings for sending metrics.
#[derive(Clone, Debug, PartialEq, Eq)]
pub struct MetricsSettings {
    /// The host and port to send metrics to, such as "127.0.0.1:8125".
    pub sink_address: String,
    /// Kilobytes the metrics queue may hold before metrics are dropped.
    pub max_queue_size_kb: usize,
}

/// Settings for error reporting: release mode with a DSN and an environment
/// name, debug mode with a test DSN, or disabled.
#[derive(Clone, Debug, PartialEq, Eq)]
pub enum SentrySettings {
    Release { dsn: String, env: String },
    Debug,
    Disabled,
}

impl SentrySettings {
    /// The DSN to report to: the configured one in release mode, a test DSN
    /// in debug mode, none when disabled.
    pub fn dsn(&self) -> (r: Option<String>)
        ensures
            match self {
                SentrySettings::Release { dsn, .. } => r == Some(*dsn),
                SentrySettings::Debug => r matches Some(d) && d@ == "https://public@example.com/1"@,
                SentrySettings::Disabled => r.is_none(),
            },
    {
        match self {
            SentrySettings::Release { dsn, .. } => Some(dsn.clone()),
            SentrySettings::Debug => {
                proof {
                    reveal_strlit("https://public@example.com/1");
                }
                Some(String::from_str("https://public@example.com/1"))
            },
            SentrySettings::Disabled => None,
        }
    }

    /// Whether reporting is in debug mode.
    pub fn debug(&self) -> (r: bool)
        ensures
            r == (*self is Debug),
    {
        match self {
            SentrySettings::Release { .. } => false,
            SentrySettings::Debug => true,
            SentrySettings::Disabled => false,
        }
    }

    /// The environment name: the configured one in release mode, otherwise
    /// the mode's name.
    pub fn env(&self) -> (r: &str)
        ensures
            match self {
                SentrySettings::Release { env, .. } => r@ == env@,
                SentrySettings::Debug => r@ == "debug"@,
                SentrySettings::Disabled => r@ == "disabled"@,
            },
    {
        match self {
            SentrySettings::Release { env, .. } => env.as_str(),
            SentrySettings::Debug => {
                proof {
                    reveal_strlit("debug");
                }
                "debug"
            },
            SentrySettings::Disabled => {
                proof {
                    reveal_strlit("disabled");
                }
                "disabled"
            },
        }
    }
}

/// The backend of one provider, with its own settings.
#[derive(Clone, Debug)]
pub enum SuggestionProviderConfig {
    RemoteSettings(AdmRsSettings),
    WikiFruit(WikiFruitSettings),
}

/// Everything needed to build one provider chain.
#[derive(Clone, Debug)]
pub struct ProviderConfig {
    /// The backend and its settings.
    pub backend: SuggestionProviderConfig,
    /// The rules of a keyword filter around the chain, if any.
    pub blocklist: Option<Blocklist>,
    /// Seconds a cached answer stays fresh, where the backend uses a cache.
    pub cache_ttl: u64,
}

/// All settings of the service.
#[derive(Clone, Debug)]
pub struct Settings {
    /// The environment the service runs in.
    pub env: String,
    /// Whether debugging features are on; never in production.
    pub debug: bool,
    /// Settings for the HTTP server.
    pub http: HttpSettings,
    /// The providers to build, by name, in order.
    pub suggestion_providers: Vec<(String, ProviderConfig)>,
    /// Settings for sending metrics.
    pub metrics: MetricsSettings,
    /// Settings for error reporting.
    pub sentry: SentrySettings,
    /// A page that explains the service to the curious, if any.
    pub public_documentation: Option<String>,
    /// Settings for connecting to Redis.
    pub redis: RedisSettings,
    /// Settings for connecting to Remote Settings.
    pub remote_settings: RemoteSettingsGlobalSettings,
    /// Settings used to find the location of a request.
    pub location: LocationSettings,
}

impl SuggestionProviderConfig {
    /// Whether the backend is enabled.
    pub open spec fn is_enabled(&self) -> bool {
        match self {
            SuggestionProviderConfig::RemoteSettings(s) => s.enabled,
            SuggestionProviderConfig::WikiFruit(s) => s.enabled,
        }
    }

    /// The cache the backend uses.
    pub open spec fn cache_type(&self) -> CacheType {
        match self {
            SuggestionProviderConfig::RemoteSettings(s) => s.cache,
            SuggestionProviderConfig::WikiFruit(s) => s.cache,
        }
    }

    /// Whether the backend is enabled.
    pub fn enabled(&self) -> (r: bool)
        ensures
            r == self.is_enabled(),
    {
        match self {
            SuggestionProviderConfig::RemoteSettings(s) => s.enabled,
            SuggestionProviderConfig::WikiFruit(s) => s.enabled,
        }
    }

    /// The cache the backend uses.
    pub fn cache(&self) -> (r: CacheType)
        ensures
            r == self.cache_type(),
    {
        match self {
            SuggestionProviderConfig::RemoteSettings(s) => s.cache,
            SuggestionProviderConfig::WikiFruit(s) => s.cache,
        }
    }
}

} // verus!
