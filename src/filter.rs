//! The keyword filter: a decorator that drops suggestions whose title matches
//! a blocklist rule, and counts how often each rule fired.
use vstd::prelude::*;
use regex::RegexSet;
use crate::blocklist::Blocklist;
use crate::model::{texts, CacheStatus, SetupError, SuggestError, Suggestion, SuggestionResponse};
use crate::provider::{name_of, SuggestionProvider};
use crate::regex_set::{
    compile_ignoring_case, matches_ignoring_case, matching_patterns, set_compiles,
    set_ignores_case, set_patterns,
};

verus! {

/// Whether some pattern matches the title.
pub open spec fn blocked(patterns: Seq<Seq<char>>, title: Seq<char>) -> bool {
    exists|i: int| 0 <= i < patterns.len() && #[trigger] matches_ignoring_case(patterns[i], title)
}

/// The suggestions that no pattern blocks, in their order.
pub open spec fn surviving(patterns: Seq<Seq<char>>, s: Seq<Suggestion>) -> Seq<Suggestion>
    decreases s.len(),
{
    if s.len() == 0 {
        s
    } else {
        let rest = surviving(patterns, s.drop_last());
        if blocked(patterns, s.last().title@) {
            rest
        } else {
            rest.push(s.last())
        }
    }
}

/// How many of the suggestions have a title that the pattern matches.
pub open spec fn match_count(pattern: Seq<char>, s: Seq<Suggestion>) -> nat
    decreases s.len(),
{
    if s.len() == 0 {
        0
    } else {
        match_count(pattern, s.drop_last()) + if matches_ignoring_case(pattern, s.last().title@) {
            1nat
        } else {
            0nat
        }
    }
}

/// For the first `n` rules, in order, each rule that fired with its count.
pub open spec fn rule_hits(ids: Seq<Seq<char>>, patterns: Seq<Seq<char>>, s: Seq<Suggestion>, n: int) -> Seq<(Seq<char>, nat)>
    decreases n,
{
    if n <= 0 {
        Seq::empty()
    } else {
        let rest = rule_hits(ids, patterns, s, n - 1);
        let c = match_count(patterns[n - 1], s);
        if c > 0 {
            rest.push((ids[n - 1], c))
        } else {
            rest
        }
    }
}

/// The suggestions of an inner result: none where it failed.
pub open spec fn inner_suggestions(inner: Result<SuggestionResponse, SuggestError>) -> Seq<Suggestion> {
    match inner {
        Ok(r) => r.suggestions@,
        Err(_) => Seq::empty(),
    }
}

/// Whether a title is blocked, and so which suggestions survive, depends on
/// which patterns there are, not on their order or repetition.
pub proof fn lemma_blocking_ignores_rule_order(first: Seq<Seq<char>>, second: Seq<Seq<char>>, s: Seq<Suggestion>)
    requires
        forall|x: Seq<char>| first.contains(x) <==> second.contains(x),
    ensures
        forall|t: Seq<char>| #[trigger] blocked(first, t) == blocked(second, t),
        surviving(first, s) == surviving(second, s),
    decreases s.len(),
{
    assert forall|t: Seq<char>| #[trigger] blocked(first, t) == blocked(second, t) by {
        if blocked(first, t) {
            let i = choose|i: int| 0 <= i < first.len() && #[trigger] matches_ignoring_case(first[i], t);
            assert(first.contains(first[i]));
            let j = choose|j: int| 0 <= j < second.len() && second[j] == first[i];
            assert(matches_ignoring_case(second[j], t));
        }
        if blocked(second, t) {
            let i = choose|i: int| 0 <= i < second.len() && #[trigger] matches_ignoring_case(second[i], t);
            assert(second.contains(second[i]));
            let j = choose|j: int| 0 <= j < first.len() && first[j] == second[i];
            assert(matches_ignoring_case(first[j], t));
        }
    }
    if s.len() > 0 {
        lemma_blocking_ignores_rule_order(first, second, s.drop_last());
    }
}

/// A single suggestion counts once for every rule that matches its title, and
/// not at all for the others.
pub proof fn lemma_one_suggestion_counts_once_per_matching_rule(pattern: Seq<char>, x: Suggestion)
    ensures
        match_count(pattern, seq![x]) == if matches_ignoring_case(pattern, x.title@) {
            1nat
        } else {
            0nat
        },
{
    assert(seq![x].drop_last() =~= Seq::<Suggestion>::empty());
    assert(seq![x].last() == x);
    assert(match_count(pattern, Seq::<Suggestion>::empty()) == 0);
}

/// Every rule that matches some suggestion is reported, under its id, with its
/// count, whatever other rules matched the same suggestions.
pub proof fn lemma_every_matching_rule_is_reported(
    ids: Seq<Seq<char>>,
    patterns: Seq<Seq<char>>,
    s: Seq<Suggestion>,
    i: int,
    k: int,
)
    requires
        ids.len() == patterns.len(),
        0 <= i < patterns.len(),
        0 <= k < s.len(),
        matches_ignoring_case(patterns[i], s[k].title@),
    ensures
        match_count(patterns[i], s) >= 1,
        rule_hits(ids, patterns, s, patterns.len() as int).contains(
            (ids[i], match_count(patterns[i], s)),
        ),
{
    lemma_match_count_positive(patterns[i], s, k);
    lemma_rule_hits_contains(ids, patterns, s, patterns.len() as int, i);
}

/// Where rule ids are distinct, each rule that fired is reported once: no
/// two hits carry the same id.
pub proof fn lemma_each_rule_reported_once(
    ids: Seq<Seq<char>>,
    patterns: Seq<Seq<char>>,
    s: Seq<Suggestion>,
    n: int,
)
    requires
        0 <= n <= ids.len(),
        ids.len() == patterns.len(),
        forall|i: int, j: int| 0 <= i < j < ids.len() ==> ids[i] != ids[j],
    ensures
        forall|a: int, b: int|
            0 <= a < b < rule_hits(ids, patterns, s, n).len() ==> rule_hits(ids, patterns, s, n)[a].0
                != rule_hits(ids, patterns, s, n)[b].0,
        forall|a: int|
            0 <= a < rule_hits(ids, patterns, s, n).len() ==> exists|k: int|
                0 <= k < n && #[trigger] ids[k] == #[trigger] rule_hits(ids, patterns, s, n)[a].0,
    decreases n,
{
    if n > 0 {
        lemma_each_rule_reported_once(ids, patterns, s, n - 1);
        let prev = rule_hits(ids, patterns, s, n - 1);
        let r = rule_hits(ids, patterns, s, n);
        assert forall|a: int| 0 <= a < r.len() implies exists|k: int|
            0 <= k < n && #[trigger] ids[k] == #[trigger] r[a].0 by {
            if a < prev.len() {
                assert(r[a] == prev[a]);
                let k = choose|k: int| 0 <= k < n - 1 && #[trigger] ids[k] == prev[a].0;
                assert(ids[k] == r[a].0);
            } else {
                assert(ids[n - 1] == r[a].0);
            }
        }
        assert forall|a: int, b: int| 0 <= a < b < r.len() implies #[trigger] r[a].0 != #[trigger] r[b].0 by {
            if b < prev.len() {
                assert(r[a] == prev[a] && r[b] == prev[b]);
            } else {
                assert(r[b].0 == ids[n - 1]);
                assert(r[a] == prev[a]);
                let k = choose|k: int| 0 <= k < n - 1 && #[trigger] ids[k] == prev[a].0;
                assert(ids[k] != ids[n - 1]);
            }
        }
    }
}

proof fn lemma_no_counts_no_hits(ids: Seq<Seq<char>>, patterns: Seq<Seq<char>>, s: Seq<Suggestion>, n: int)
    requires
        n <= patterns.len(),
        forall|i: int| 0 <= i < n ==> match_count(#[trigger] patterns[i], s) == 0,
    ensures
        rule_hits(ids, patterns, s, n).len() == 0,
    decreases n,
{
    if n > 0 {
        lemma_no_counts_no_hits(ids, patterns, s, n - 1);
    }
}

proof fn lemma_match_count_positive(pattern: Seq<char>, s: Seq<Suggestion>, k: int)
    requires
        0 <= k < s.len(),
        matches_ignoring_case(pattern, s[k].title@),
    ensures
        match_count(pattern, s) >= 1,
    decreases s.len(),
{
    if k < s.len() - 1 {
        assert(s.drop_last()[k] == s[k]);
        lemma_match_count_positive(pattern, s.drop_last(), k);
    }
}

proof fn lemma_rule_hits_contains(
    ids: Seq<Seq<char>>,
    patterns: Seq<Seq<char>>,
    s: Seq<Suggestion>,
    n: int,
    i: int,
)
    requires
        0 <= i < n <= patterns.len(),
        match_count(patterns[i], s) > 0,
    ensures
        rule_hits(ids, patterns, s, n).contains((ids[i], match_count(patterns[i], s))),
    decreases n,
{
    let r = rule_hits(ids, patterns, s, n);
    if i == n - 1 {
        assert(r[r.len() - 1] == (ids[i], match_count(patterns[i], s)));
    } else {
        lemma_rule_hits_contains(ids, patterns, s, n - 1, i);
        let prev = rule_hits(ids, patterns, s, n - 1);
        let j = choose|j: int| 0 <= j < prev.len() && prev[j] == (ids[i], match_count(patterns[i], s));
        assert(r[j] == prev[j]);
    }
}

/// One rule that fired, with the number of suggestions it matched.
#[derive(Clone, Debug, PartialEq, Eq)]
pub struct RuleHit {
    /// The rule's id.
    pub id: String,
    /// How many suggestions it matched.
    pub count: usize,
}

/// The hits as plain values.
pub open spec fn hits_view(h: Seq<RuleHit>) -> Seq<(Seq<char>, nat)> {
    h.map_values(|x: RuleHit| (x.id@, x.count as nat))
}

/// What filtering one inner result gives: the response to hand on, and the
/// counts to report, one per rule that fired.
#[derive(Debug)]
pub struct FilterOutcome {
    /// The inner response without the blocked suggestions.
    pub response: SuggestionResponse,
    /// One entry per rule that matched at least one suggestion, in rule order.
    pub hits: Vec<RuleHit>,
}

/// A decorator that filters the results of the provider it wraps through a
/// blocklist.
pub struct KeywordFilterProvider {
    /// The ids of the rules, in the order of the patterns in `blocklist_rules`.
    pub(crate) blocklist_ids: Vec<String>,
    /// All patterns, compiled into one set.
    pub(crate) blocklist_rules: RegexSet,
    /// The provider whose results are filtered.
    pub(crate) inner: SuggestionProvider,
}

impl KeywordFilterProvider {
    /// The ids of the rules, in order.
    pub closed spec fn ids(&self) -> Seq<Seq<char>> {
        texts(self.blocklist_ids@)
    }

    /// The patterns of the rules, in the order of their ids.
    pub closed spec fn patterns(&self) -> Seq<Seq<char>> {
        set_patterns(self.blocklist_rules)
    }

    /// The provider this one wraps.
    pub closed spec fn wrapped(&self) -> SuggestionProvider {
        self.inner
    }

    /// What `wrapped` stands for, for the other modules of this crate.
    pub(crate) proof fn lemma_wrapped_is_inner(&self)
        ensures
            self.wrapped() == self.inner,
    {
    }

    /// The provider this one wraps.
    pub fn inner(&self) -> (r: &SuggestionProvider)
        ensures
            *r == self.wrapped(),
    {
        &self.inner
    }

    /// One pattern per id, compiled without regard to case.
    pub closed spec fn wf(&self) -> bool {
        &&& self.ids().len() == self.patterns().len()
        &&& set_ignores_case(self.blocklist_rules)
    }

    /// Builds the filter around `inner`, compiling all patterns of the
    /// blocklist into one case-insensitive set; fails when they do not compile.
    pub fn new_boxed(blocklist: Blocklist, inner: SuggestionProvider) -> (r: Result<
        Box<Self>,
        SetupError,
    >)
        ensures
            r.is_ok() == set_compiles(blocklist.patterns()),
            r matches Ok(f) ==> f.wf() && f.ids() == blocklist.ids() && f.patterns()
                == blocklist.patterns() && f.wrapped() == inner,
            r matches Err(e) ==> e is InvalidConfiguration,
    {
        let (blocklist_ids, patterns) = blocklist.split();
        match compile_ignoring_case(&patterns) {
            Ok(blocklist_rules) => Ok(Box::new(KeywordFilterProvider { blocklist_ids, blocklist_rules, inner })),
            Err(_) => Err(
                SetupError::InvalidConfiguration(
                    String::from_str("the keyword filter's patterns do not compile"),
                ),
            ),
        }
    }

    /// The filter's name, around the name of the provider it wraps.
    pub fn name(&self) -> (r: String)
        ensures
            r@ == "KeywordFilterProvider("@ + name_of(self.wrapped()) + ")"@,
    {
        proof {
            reveal_strlit("KeywordFilterProvider(");
            reveal_strlit(")");
        }
        let inner = self.inner.name();
        String::from_str("KeywordFilterProvider(").concat(inner.as_str()).concat(")")
    }

    /// The number of rules.
    pub fn rule_count(&self) -> (r: usize)
        ensures
            r == self.ids().len(),
    {
        self.blocklist_ids.len()
    }

    /// Filters the result of the inner provider. A failed inner call counts as
    /// an empty response. The surviving suggestions keep their order and the
    /// inner response's cache status; each rule that matched reports how many
    /// suggestions it matched.
    pub fn filter_response(&self, inner: Result<SuggestionResponse, SuggestError>) -> (r: FilterOutcome)
        requires
            self.wf(),
        ensures
            r.response.suggestions@ == surviving(self.patterns(), inner_suggestions(inner)),
            inner is Err ==> r.response.suggestions@.len() == 0 && r.hits@.len() == 0,
            hits_view(r.hits@) == rule_hits(
                self.ids(),
                self.patterns(),
                inner_suggestions(inner),
                self.ids().len() as int,
            ),
            match inner {
                Ok(resp) => r.response.cache_status == resp.cache_status && r.response.cache_ttl
                    == resp.cache_ttl,
                Err(_) => r.response.cache_status == CacheStatus::NoCache
                    && r.response.cache_ttl.is_none(),
            },
    {
        let ghost src = inner_suggestions(inner);
        let ghost pats = self.patterns();
        let (suggestions, cache_status, cache_ttl) = match inner {
            Ok(resp) => (resp.suggestions, resp.cache_status, resp.cache_ttl),
            Err(_) => (Vec::new(), CacheStatus::NoCache, None),
        };
        assert(suggestions@ == src);
        let n = self.blocklist_ids.len();
        let mut counts: Vec<usize> = Vec::new();
        while counts.len() < n
            invariant
                counts.len() <= n,
                forall|i: int| 0 <= i < counts.len() ==> counts[i] == 0,
            decreases n - counts.len(),
        {
            counts.push(0);
        }
        let mut kept: Vec<Suggestion> = Vec::new();
        let mut j: usize = 0;
        while j < suggestions.len()
            invariant
                self.wf(),
                pats == self.patterns(),
                n == pats.len(),
                suggestions@ == src,
                j <= suggestions.len(),
                counts.len() == n,
                forall|i: int|
                    0 <= i < n ==> #[trigger] counts[i] == match_count(pats[i], src.take(j as int))
                        && counts[i] <= j,
                kept@ == surviving(pats, src.take(j as int)),
            decreases suggestions.len() - j,
        {
            let title = suggestions[j].title.as_str();
            let m = matching_patterns(&self.blocklist_rules, title);
            proof {
                assert(src.take(j + 1).drop_last() =~= src.take(j as int));
                assert(src.take(j + 1).last() == src[j as int]);
            }
            let mut k: usize = 0;
            while k < m.len()
                invariant
                    counts.len() == n,
                    n == pats.len(),
                    pats == set_patterns(self.blocklist_rules),
                    j < suggestions.len(),
                    k <= m.len(),
                    forall|l: int| 0 <= l < m.len() ==> #[trigger] m[l] < pats.len(),
                    forall|a: int, b: int| 0 <= a < b < m.len() ==> m[a] < m[b],
                    forall|i: int|
                        0 <= i < n ==> #[trigger] counts[i] == match_count(pats[i], src.take(j as int))
                            + if m@.subrange(0, k as int).contains(i as usize) {
                            1int
                        } else {
                            0int
                        } && counts[i] <= j + if m@.subrange(0, k as int).contains(i as usize) {
                            1int
                        } else {
                            0int
                        },
                decreases m.len() - k,
            {
                let idx = m[k];
                proof {
                    assert(!m@.subrange(0, k as int).contains(idx)) by {
                        if m@.subrange(0, k as int).contains(idx) {
                            let a = choose|a: int| 0 <= a < k && m@.subrange(0, k as int)[a] == idx;
                            assert(m[a] < m[k as int]);
                        }
                    }
                    let s0 = m@.subrange(0, k as int);
                    let s1 = s0.push(idx);
                    assert(m@.subrange(0, k + 1) =~= s1);
                    assert forall|i: int| 0 <= i < n && i != idx as int implies
                        #[trigger] s1.contains(i as usize) == s0.contains(i as usize) by {
                        if s0.contains(i as usize) {
                            let a = choose|a: int| 0 <= a < s0.len() && #[trigger] s0[a] == i as usize;
                            assert(s1[a] == i as usize);
                        }
                        if s1.contains(i as usize) {
                            let a = choose|a: int| 0 <= a < s1.len() && #[trigger] s1[a] == i as usize;
                            assert(s0[a] == i as usize);
                        }
                    }
                    assert(s1.contains(idx)) by {
                        assert(s1[k as int] == idx);
                    }
                }
                let c = counts[idx];
                counts.set(idx, c + 1);
                k = k + 1;
            }
            proof {
                assert(m@.subrange(0, m.len() as int) =~= m@);
                let t = src[j as int].title@;
                assert(m.len() == 0 <==> !blocked(pats, t)) by {
                    if m.len() > 0 {
                        assert(m@.contains(m[0]));
                        assert(matches_ignoring_case(pats[m[0] as int], t));
                    }
                    if blocked(pats, t) {
                        let i = choose|i: int| 0 <= i < pats.len() && #[trigger] matches_ignoring_case(pats[i], t);
                        assert(m@.contains(i as usize));
                    }
                }
                assert forall|i: int| 0 <= i < n implies #[trigger] counts[i] == match_count(pats[i], src.take(j + 1)) by {
                    assert(m@.contains(i as usize) == matches_ignoring_case(pats[i], t));
                }
            }
            if m.len() == 0 {
                kept.push(suggestions[j].duplicate());
            }
            j = j + 1;
        }
        assert(src.take(j as int) =~= src);
        proof {
            if inner is Err {
                assert(src.len() == 0);
                assert(src.take(0) =~= src);
                assert forall|i: int| 0 <= i < n implies match_count(#[trigger] pats[i], src) == 0 by {}
            }
        }
        let mut hits: Vec<RuleHit> = Vec::new();
        let mut i: usize = 0;
        while i < n
            invariant
                i <= n,
                n == pats.len(),
                n == self.ids().len(),
                counts.len() == n,
                self.ids() == texts(self.blocklist_ids@),
                forall|i: int| 0 <= i < n ==> #[trigger] counts[i] == match_count(pats[i], src),
                hits_view(hits@) == rule_hits(self.ids(), pats, src, i as int),
            decreases n - i,
        {
            if counts[i] > 0 {
                let ghost before = hits@;
                hits.push(RuleHit { id: self.blocklist_ids[i].clone(), count: counts[i] });
                assert(hits_view(hits@) =~= hits_view(before).push((self.ids()[i as int], counts[i as int] as nat)));
            }
            i = i + 1;
        }
        proof {
            if inner is Err {
                lemma_no_counts_no_hits(self.ids(), pats, src, n as int);
            }
        }
        FilterOutcome {
            response: SuggestionResponse { suggestions: kept, cache_status, cache_ttl },
            hits,
        }
    }
}

} // verus!
