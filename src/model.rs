//! Plain data shared by every provider: requests, suggestions, responses and
//! the errors that providers report.
use vstd::prelude::*;

verus! {

/// The texts of a list of strings.
pub open spec fn texts(v: Seq<String>) -> Seq<Seq<char>> {
    v.map_values(|s: String| s@)
}

/// How a response relates to the cache of its chain.
#[derive(Clone, Copy, Debug, PartialEq, Eq, Structural)]
pub enum CacheStatus {
    /// No cache stands in the chain.
    NoCache,
    /// Served from the cache, without asking the backend.
    Hit,
    /// The backend was asked and its answer stored.
    Miss,
    /// The cache could not be reached; the backend's answer was not stored.
    Error,
}

/// One candidate result for a query.
#[derive(Clone, Debug, PartialEq, Eq)]
pub struct Suggestion {
    /// Name of the provider that produced it.
    pub provider: String,
    /// The text shown to the user.
    pub title: String,
    /// The whole keyword that the query matched.
    pub full_keyword: String,
    /// Where the suggestion leads.
    pub url: String,
    /// Location of the icon to show beside it.
    pub icon: String,
}

impl Suggestion {
    /// A field-by-field copy.
    pub fn duplicate(&self) -> (r: Suggestion)
        ensures
            r == *self,
    {
        Suggestion {
            provider: self.provider.clone(),
            title: self.title.clone(),
            full_keyword: self.full_keyword.clone(),
            url: self.url.clone(),
            icon: self.icon.clone(),
        }
    }
}

/// Copies a list of suggestions, keeping their order.
pub fn duplicate_all(v: &Vec<Suggestion>) -> (r: Vec<Suggestion>)
    ensures
        r@ == v@,
{
    let mut r: Vec<Suggestion> = Vec::new();
    let mut i: usize = 0;
    while i < v.len()
        invariant
            i <= v.len(),
            r@ == v@.subrange(0, i as int),
        decreases v.len() - i,
    {
        r.push(v[i].duplicate());
        i = i + 1;
    }
    assert(v@.subrange(0, v.len() as int) == v@);
    r
}

/// A query and the context that may change its answer.
#[derive(Clone, Debug, PartialEq, Eq)]
pub struct SuggestionRequest {
    /// What the user typed.
    pub query: String,
    /// Whether the client accepts English results.
    pub accepts_english: bool,
    /// The country the request was placed in, if known.
    pub country: Option<String>,
}

/// The text of an optional string.
pub open spec fn text_of(o: Option<String>) -> Option<Seq<char>> {
    match o {
        Some(s) => Some(s@),
        None => None,
    }
}

/// Two optional strings hold the same text, or are both absent.
pub fn same_optional_text(a: &Option<String>, b: &Option<String>) -> (r: bool)
    ensures
        r == (text_of(*a) == text_of(*b)),
{
    match (a, b) {
        (Some(x), Some(y)) => *x == *y,
        (None, None) => true,
        _ => false,
    }
}

/// What identifies a request: the query and the context fields that change
/// its answer.
pub type RequestKey = (Seq<char>, bool, Option<Seq<char>>);

impl SuggestionRequest {
    /// The request's identity as plain values.
    pub open spec fn key(&self) -> RequestKey {
        (self.query@, self.accepts_english, text_of(self.country))
    }

    /// A field-by-field copy.
    pub fn duplicate(&self) -> (r: SuggestionRequest)
        ensures
            r == *self,
    {
        SuggestionRequest {
            query: self.query.clone(),
            accepts_english: self.accepts_english,
            country: match &self.country {
                Some(c) => Some(c.clone()),
                None => None,
            },
        }
    }

    /// Whether two requests ask for the same thing, field by field.
    pub fn same_as(&self, other: &SuggestionRequest) -> (r: bool)
        ensures
            r == (self.key() == other.key()),
    {
        self.query == other.query && self.accepts_english == other.accepts_english
            && same_optional_text(&self.country, &other.country)
    }
}

/// What a provider answers: ordered suggestions and their cache provenance.
#[derive(Clone, Debug, PartialEq, Eq)]
pub struct SuggestionResponse {
    /// The suggestions, best first.
    pub suggestions: Vec<Suggestion>,
    /// How the response relates to the cache.
    pub cache_status: CacheStatus,
    /// Seconds of freshness left, for a response that passed through a cache.
    pub cache_ttl: Option<u64>,
}

impl SuggestionResponse {
    /// A response that did not pass through a cache.
    pub fn new(suggestions: Vec<Suggestion>) -> (r: SuggestionResponse)
        ensures
            r.suggestions@ == suggestions@,
            r.cache_status == CacheStatus::NoCache,
            r.cache_ttl.is_none(),
    {
        SuggestionResponse { suggestions, cache_status: CacheStatus::NoCache, cache_ttl: None }
    }
}

/// Why a provider could not answer.
#[derive(Clone, Debug, PartialEq, Eq)]
pub enum SuggestError {
    /// The backend could not be reached.
    Network(String),
    /// The backend answered with data that could not be read.
    Serialization(String),
    /// The provider is disabled or misconfigured.
    Internal(String),
}

/// Why a provider could not be built.
#[derive(Clone, Debug, PartialEq, Eq)]
pub enum SetupError {
    /// The provider's configuration is invalid.
    InvalidConfiguration(String),
}

} // verus!
