//! Blocklist rules: a mapping from rule id to pattern, kept in insertion order.
use vstd::prelude::*;
use crate::model::texts;

verus! {

/// One named pattern.
#[derive(Clone, Debug, PartialEq, Eq)]
pub struct BlocklistRule {
    /// The rule's id, reported when it fires.
    pub id: String,
    /// The pattern, matched without regard to case.
    pub pattern: String,
}

/// Rules keyed by id: each id stands once, in the order it was first inserted.
#[derive(Clone, Debug)]
pub struct Blocklist {
    rules: Vec<BlocklistRule>,
}

impl Blocklist {
    /// The ids, in order.
    pub closed spec fn ids(&self) -> Seq<Seq<char>> {
        self.rules@.map_values(|r: BlocklistRule| r.id@)
    }

    /// The patterns, in the order of their ids.
    pub closed spec fn patterns(&self) -> Seq<Seq<char>> {
        self.rules@.map_values(|r: BlocklistRule| r.pattern@)
    }

    /// No id stands twice.
    pub open spec fn wf(&self) -> bool {
        &&& self.ids().len() == self.patterns().len()
        &&& forall|i: int, j: int|
            0 <= i < j < self.ids().len() ==> self.ids()[i] != self.ids()[j]
    }

    /// An empty blocklist.
    pub fn new() -> (r: Blocklist)
        ensures
            r.wf(),
            r.ids().len() == 0,
    {
        Blocklist { rules: Vec::new() }
    }

    /// Sets the pattern of rule `id`: a known id keeps its place and gets the
    /// new pattern; a new id is added at the end.
    pub fn insert(&mut self, id: String, pattern: String)
        requires
            old(self).wf(),
        ensures
            final(self).wf(),
            forall|k: int|
                0 <= k < old(self).ids().len() && old(self).ids()[k] == id@ ==> final(self).ids()
                    == old(self).ids() && final(self).patterns() == old(self).patterns().update(
                    k,
                    pattern@,
                ),
            !old(self).ids().contains(id@) ==> final(self).ids() == old(self).ids().push(id@)
                && final(self).patterns() == old(self).patterns().push(pattern@),
    {
        let ghost ids0 = self.ids();
        let ghost pats0 = self.patterns();
        let mut i: usize = 0;
        while i < self.rules.len()
            invariant
                self.ids() == ids0,
                self.patterns() == pats0,
                self.ids().len() == self.rules.len(),
                i <= self.rules.len(),
                forall|k: int| 0 <= k < i ==> ids0[k] != id@,
                ids0 == old(self).ids(),
                pats0 == old(self).patterns(),
                old(self).wf(),
            decreases self.rules.len() - i,
        {
            if self.rules[i].id == id {
                assert(ids0[i as int] == id@);
                self.rules.set(i, BlocklistRule { id, pattern });
                assert(self.ids() =~= ids0);
                assert(self.patterns() =~= pats0.update(i as int, pattern@));
                return;
            }
            i = i + 1;
        }
        assert(!ids0.contains(id@));
        self.rules.push(BlocklistRule { id, pattern });
        assert(self.ids() =~= ids0.push(id@));
        assert(self.patterns() =~= pats0.push(pattern@));
    }

    /// The number of rules.
    pub fn len(&self) -> (r: usize)
        ensures
            r == self.ids().len(),
    {
        self.rules.len()
    }

    /// The ids and the patterns as two lists in the same order.
    pub fn split(&self) -> (r: (Vec<String>, Vec<String>))
        ensures
            texts(r.0@) == self.ids(),
            texts(r.1@) == self.patterns(),
            r.0.len() == r.1.len(),
    {
        let mut ids: Vec<String> = Vec::new();
        let mut pats: Vec<String> = Vec::new();
        let mut i: usize = 0;
        while i < self.rules.len()
            invariant
                i <= self.rules.len(),
                ids.len() == i,
                pats.len() == i,
                texts(ids@) =~= self.ids().subrange(0, i as int),
                texts(pats@) =~= self.patterns().subrange(0, i as int),
            decreases self.rules.len() - i,
        {
            let ghost ids_before = ids@;
            let ghost pats_before = pats@;
            ids.push(self.rules[i].id.clone());
            pats.push(self.rules[i].pattern.clone());
            assert(forall|k: int| 0 <= k < i ==> ids@[k] == ids_before[k] && pats@[k] == pats_before[k]);
            assert(forall|k: int| 0 <= k < i ==> texts(ids_before)[k] == #[trigger] self.ids()[k]);
            assert(forall|k: int| 0 <= k < i ==> texts(pats_before)[k] == #[trigger] self.patterns()[k]);
            assert(self.ids()[i as int] == self.rules@[i as int].id@);
            assert(self.patterns()[i as int] == self.rules@[i as int].pattern@);
            i = i + 1;
            assert(texts(ids@) =~= self.ids().subrange(0, i as int));
            assert(texts(pats@) =~= self.patterns().subrange(0, i as int));
        }
        assert(self.ids().subrange(0, i as int) =~= self.ids());
        assert(self.patterns().subrange(0, i as int) =~= self.patterns());
        (ids, pats)
    }
}

} // verus!
