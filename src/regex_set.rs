//! The one place where the library meets the `regex` crate: compiling a set of
//! case-insensitive patterns and asking which of them match a text.
use vstd::prelude::*;
use regex::{RegexSet, RegexSetBuilder};
use crate::model::texts;

verus! {

#[verifier::external_type_specification]
#[verifier::external_body]
pub struct ExRegexSet(RegexSet);

#[verifier::external_type_specification]
#[verifier::external_body]
pub struct ExRegexError(regex::Error);

/// Whether the patterns, all compiled without regard to case, form a valid set
/// (every pattern is valid and the set stays within the size limits).
pub uninterp spec fn set_compiles(patterns: Seq<Seq<char>>) -> bool;

/// The patterns a set was compiled from, in order.
pub uninterp spec fn set_patterns(set: RegexSet) -> Seq<Seq<char>>;

/// Whether a set was compiled without regard to case.
pub uninterp spec fn set_ignores_case(set: RegexSet) -> bool;

/// Whether the pattern, compiled without regard to case, matches somewhere in
/// the text.
pub uninterp spec fn matches_ignoring_case(pattern: Seq<char>, text: Seq<char>) -> bool;

/// Relies on `RegexSetBuilder::new(..).case_insensitive(true).build()`: it
/// compiles the patterns, in order, into one set, or fails when a pattern is
/// invalid or the set is too large.
#[verifier::external_body]
pub(crate) fn compile_ignoring_case(patterns: &Vec<String>) -> (r: Result<RegexSet, regex::Error>)
    ensures
        r.is_ok() == set_compiles(texts(patterns@)),
        r matches Ok(set) ==> set_patterns(set) == texts(patterns@) && set_ignores_case(set),
{
    RegexSetBuilder::new(patterns).case_insensitive(true).build()
}

/// Relies on `RegexSet::matches` and its iterator: the indices of the set's
/// patterns that match somewhere in the text, in ascending order.
#[verifier::external_body]
pub(crate) fn matching_patterns(set: &RegexSet, text: &str) -> (r: Vec<usize>)
    requires
        set_ignores_case(*set),
    ensures
        forall|k: int| 0 <= k < r.len() ==> #[trigger] r[k] < set_patterns(*set).len(),
        forall|k: int, l: int| 0 <= k < l < r.len() ==> r[k] < r[l],
        forall|i: int|
            0 <= i < set_patterns(*set).len() ==> (r@.contains(i as usize)
                <==> #[trigger] matches_ignoring_case(set_patterns(*set)[i], text@)),
{
    set.matches(text).into_iter().collect()
}

} // verus!
