//! The registry of provider chains built from configuration, and the merge of
//! the answers of several chains.
use vstd::prelude::*;
use crate::model::{texts, CacheStatus, SetupError, SuggestError, Suggestion, SuggestionResponse};
use crate::provider::{build_chain, buildable, chain_name, name_of, SuggestionProvider};
use crate::settings::ProviderConfig;

verus! {

/// The entries that a registry takes: enabled, and buildable.
pub open spec fn registered(cs: Seq<(String, ProviderConfig)>) -> Seq<(String, ProviderConfig)>
    decreases cs.len(),
{
    if cs.len() == 0 {
        cs
    } else {
        let rest = registered(cs.drop_last());
        let c = cs.last().1;
        if c.backend.is_enabled() && buildable(c) {
            rest.push(cs.last())
        } else {
            rest
        }
    }
}

/// The names of the entries that are enabled but cannot be built.
pub open spec fn unbuildable(cs: Seq<(String, ProviderConfig)>) -> Seq<Seq<char>>
    decreases cs.len(),
{
    if cs.len() == 0 {
        Seq::empty()
    } else {
        let rest = unbuildable(cs.drop_last());
        let c = cs.last().1;
        if c.backend.is_enabled() && !buildable(c) {
            rest.push(cs.last().0@)
        } else {
            rest
        }
    }
}

/// A provider that could not be built, and why.
#[derive(Debug)]
pub struct SetupFailure {
    /// The provider's name.
    pub name: String,
    /// What went wrong.
    pub error: SetupError,
}

/// The names of the failures.
pub open spec fn failure_names(f: Seq<SetupFailure>) -> Seq<Seq<char>> {
    f.map_values(|x: SetupFailure| x.name@)
}

/// Named provider chains, in the order of their configuration.
pub struct ProviderRegistry {
    names: Vec<String>,
    providers: Vec<SuggestionProvider>,
}

impl ProviderRegistry {
    /// The names, in order.
    pub closed spec fn names(&self) -> Seq<Seq<char>> {
        texts(self.names@)
    }

    /// The chains, in the order of their names.
    pub closed spec fn chains(&self) -> Seq<SuggestionProvider> {
        self.providers@
    }

    /// One chain per name.
    pub closed spec fn wf(&self) -> bool {
        self.names@.len() == self.providers@.len()
    }

    /// Builds one chain per enabled entry, in order. An entry whose chain
    /// cannot be built is left out and reported; the others are registered
    /// all the same.
    pub fn build(configs: Vec<(String, ProviderConfig)>) -> (r: (ProviderRegistry, Vec<SetupFailure>))
        ensures
            r.0.wf(),
            r.0.names().len() == registered(configs@).len(),
            r.0.chains().len() == registered(configs@).len(),
            forall|k: int|
                0 <= k < registered(configs@).len() ==> #[trigger] r.0.names()[k]
                    == registered(configs@)[k].0@ && name_of(r.0.chains()[k]) == chain_name(
                    registered(configs@)[k].1,
                ),
            failure_names(r.1@) == unbuildable(configs@),
    {
        let ghost all = configs@;
        let mut configs = configs;
        let mut names: Vec<String> = Vec::new();
        let mut providers: Vec<SuggestionProvider> = Vec::new();
        let mut failures: Vec<SetupFailure> = Vec::new();
        let mut i: usize = 0;
        assert(all.len() == configs.len());
        while configs.len() > 0
            invariant
                i <= all.len(),
                configs@ == all.subrange(i as int, all.len() as int),
                all.len() == i + configs.len(),
                all.len() <= usize::MAX,
                names.len() == providers.len(),
                names.len() == registered(all.take(i as int)).len(),
                forall|k: int|
                    0 <= k < names.len() ==> #[trigger] texts(names@)[k] == registered(
                        all.take(i as int),
                    )[k].0@,
                forall|k: int|
                    0 <= k < names.len() ==> #[trigger] name_of(providers@[k]) == chain_name(
                        registered(all.take(i as int))[k].1,
                    ),
                failure_names(failures@) == unbuildable(all.take(i as int)),
            decreases configs.len(),
        {
            let (name, config) = configs.remove(0);
            proof {
                assert(all[i as int] == (name, config));
                assert(all.take(i + 1).drop_last() =~= all.take(i as int));
                assert(all.take(i + 1).last() == all[i as int]);
                assert(configs@ =~= all.subrange(i + 1, all.len() as int));
            }
            let ghost regs = registered(all.take(i as int));
            let ghost fails_before = failures@;
            let ghost providers0 = providers@;
            if config.backend.enabled() {
                match build_chain(config) {
                    Ok(p) => {
                        let ghost pp = p;
                        assert(name_of(pp) == chain_name(all[i as int].1));
                        let ghost names0 = names@;
                        names.push(name);
                        providers.push(p);
                        assert(forall|k: int| 0 <= k < regs.len() ==> names@[k] == names0[k]);
                        assert(forall|k: int| 0 <= k < regs.len() ==> texts(names0)[k] == #[trigger] regs[k].0@);
                        let ghost regs1 = registered(all.take(i + 1));
                        assert(regs1 == regs.push(all[i as int]));
                        assert forall|k: int| 0 <= k < names.len() implies #[trigger] texts(names@)[k]
                            == regs1[k].0@ && name_of(providers@[k]) == chain_name(regs1[k].1) by {
                            if k < regs.len() {
                                assert(texts(names0)[k] == regs[k].0@);
                                assert(providers@[k] == providers0[k]);
                            } else {
                                assert(k == regs.len());
                                assert(providers@[k] == pp);
                                assert(regs1[k] == all[i as int]);
                            }
                        }
                    },
                    Err(error) => {
                        failures.push(SetupFailure { name, error });
                        assert(registered(all.take(i + 1)) == regs);
                        assert(failure_names(failures@) =~= failure_names(fails_before).push(all[i as int].0@));
                    },
                }
            } else {
                assert(registered(all.take(i + 1)) == regs);
            }
            i = i + 1;
        }
        assert(all.take(i as int) =~= all);
        (ProviderRegistry { names, providers }, failures)
    }

    /// The number of chains.
    pub fn len(&self) -> (r: usize)
        requires
            self.wf(),
        ensures
            r == self.names().len(),
            r == self.chains().len(),
    {
        self.names.len()
    }

    /// The name and the chain at position `i`.
    pub fn entry(&self, i: usize) -> (r: (&String, &SuggestionProvider))
        requires
            self.wf(),
            i < self.names().len(),
        ensures
            r.0@ == self.names()[i as int],
            *r.1 == self.chains()[i as int],
    {
        (&self.names[i], &self.providers[i])
    }

    /// The chain registered under `name`: the first one, where several are.
    pub fn get(&self, name: &String) -> (r: Option<&SuggestionProvider>)
        requires
            self.wf(),
        ensures
            r.is_some() == self.names().contains(name@),
            r matches Some(p) ==> exists|k: int|
                0 <= k < self.names().len() && self.names()[k] == name@ && *p == self.chains()[k]
                    && forall|l: int| 0 <= l < k ==> self.names()[l] != name@,
    {
        let mut i: usize = 0;
        while i < self.names.len()
            invariant
                self.wf(),
                i <= self.names.len(),
                forall|l: int| 0 <= l < i ==> self.names()[l] != name@,
            decreases self.names.len() - i,
        {
            if self.names[i] == *name {
                assert(self.names()[i as int] == name@);
                return Some(&self.providers[i]);
            }
            i = i + 1;
        }
        None
    }
}

/// Every enabled entry whose chain can be built is registered, whatever the
/// other entries hold.
pub proof fn lemma_buildable_entries_are_registered(cs: Seq<(String, ProviderConfig)>, i: int)
    requires
        0 <= i < cs.len(),
        cs[i].1.backend.is_enabled(),
        buildable(cs[i].1),
    ensures
        registered(cs).contains(cs[i]),
    decreases cs.len(),
{
    let rest = cs.drop_last();
    if i == cs.len() - 1 {
        assert(registered(cs).last() == cs[i]);
        assert(registered(cs)[registered(cs).len() - 1] == cs[i]);
    } else {
        assert(rest[i] == cs[i]);
        lemma_buildable_entries_are_registered(rest, i);
        let k = choose|k: int| 0 <= k < registered(rest).len() && registered(rest)[k] == cs[i];
        assert(registered(cs)[k] == cs[i]);
    }
}

/// The answer of one chain in a fan-out.
#[derive(Debug)]
pub struct ProviderAnswer {
    /// The chain's name.
    pub name: String,
    /// What it answered.
    pub result: Result<SuggestionResponse, SuggestError>,
}

/// The answers of several chains merged into one.
#[derive(Debug)]
pub struct MergedResponse {
    /// The suggestions of every chain that answered, chain after chain.
    pub suggestions: Vec<Suggestion>,
    /// The cache status of each chain that answered, with its name.
    pub statuses: Vec<(String, CacheStatus)>,
    /// The names of the chains that failed.
    pub failed: Vec<String>,
}

/// The suggestions of the chains that answered, in chain order.
pub open spec fn merged_suggestions(a: Seq<ProviderAnswer>) -> Seq<Suggestion>
    decreases a.len(),
{
    if a.len() == 0 {
        Seq::empty()
    } else {
        merged_suggestions(a.drop_last()) + match a.last().result {
            Ok(r) => r.suggestions@,
            Err(_) => Seq::empty(),
        }
    }
}

/// The names and cache statuses of the chains that answered, in chain order.
pub open spec fn answered(a: Seq<ProviderAnswer>) -> Seq<(Seq<char>, CacheStatus)>
    decreases a.len(),
{
    if a.len() == 0 {
        Seq::empty()
    } else {
        let rest = answered(a.drop_last());
        match a.last().result {
            Ok(r) => rest.push((a.last().name@, r.cache_status)),
            Err(_) => rest,
        }
    }
}

/// The names of the chains that failed, in chain order.
pub open spec fn failed_names(a: Seq<ProviderAnswer>) -> Seq<Seq<char>>
    decreases a.len(),
{
    if a.len() == 0 {
        Seq::empty()
    } else {
        let rest = failed_names(a.drop_last());
        match a.last().result {
            Ok(_) => rest,
            Err(_) => rest.push(a.last().name@),
        }
    }
}

/// The statuses as plain values.
pub open spec fn statuses_view(s: Seq<(String, CacheStatus)>) -> Seq<(Seq<char>, CacheStatus)> {
    s.map_values(|x: (String, CacheStatus)| (x.0@, x.1))
}

/// Merges the answers of several chains, in the order given: the
/// suggestions of each chain that answered follow one another, each such
/// chain's cache status is kept under its name, and each chain that failed is
/// named without failing the whole.
pub fn merge_answers(answers: Vec<ProviderAnswer>) -> (r: MergedResponse)
    ensures
        r.suggestions@ == merged_suggestions(answers@),
        statuses_view(r.statuses@) == answered(answers@),
        texts(r.failed@) == failed_names(answers@),
{
    let ghost all = answers@;
    let mut answers = answers;
    let mut suggestions: Vec<Suggestion> = Vec::new();
    let mut statuses: Vec<(String, CacheStatus)> = Vec::new();
    let mut failed: Vec<String> = Vec::new();
    let mut i: usize = 0;
    assert(all.len() == answers.len());
    while answers.len() > 0
        invariant
            i <= all.len(),
            answers@ == all.subrange(i as int, all.len() as int),
            all.len() == i + answers.len(),
            all.len() <= usize::MAX,
            suggestions@ == merged_suggestions(all.take(i as int)),
            statuses_view(statuses@) == answered(all.take(i as int)),
            texts(failed@) == failed_names(all.take(i as int)),
        decreases answers.len(),
    {
        let answer = answers.remove(0);
        proof {
            assert(all[i as int] == answer);
            assert(all.take(i + 1).drop_last() =~= all.take(i as int));
            assert(all.take(i + 1).last() == all[i as int]);
            assert(answers@ =~= all.subrange(i + 1, all.len() as int));
        }
        let ghost st0 = statuses@;
        let ghost f0 = failed@;
        let ProviderAnswer { name, result } = answer;
        match result {
            Ok(resp) => {
                let status = resp.cache_status;
                let mut s = resp.suggestions;
                suggestions.append(&mut s);
                statuses.push((name, status));
                assert(statuses_view(statuses@) =~= statuses_view(st0).push((answer.name@, status)));
            },
            Err(_) => {
                failed.push(name);
                assert(texts(failed@) =~= texts(f0).push(answer.name@));
            },
        }
        i = i + 1;
    }
    assert(all.take(i as int) =~= all);
    MergedResponse { suggestions, statuses, failed }
}

} // verus!
