//! Telling pre-releases from releases by the version's name.
use crate::storage::PreReleasePatternEntry;
use regex::Regex;
use vstd::prelude::*;

verus! {

/// Whether the regular expression `pattern` finds a match anywhere in `text`;
/// `None` where `pattern` is not a regular expression that the `regex` crate
/// accepts.
pub uninterp spec fn regex_match(pattern: Seq<char>, text: Seq<char>) -> Option<bool>;

/// `Regex::new` followed by `Regex::is_match`: compiles `pattern` and searches
/// `text` for a match. What comes back depends on the two strings alone.
#[verifier::external_body]
fn regex_is_match(pattern: &str, text: &str) -> (r: Option<bool>)
    ensures
        r == regex_match(pattern@, text@),
{
    match Regex::new(pattern) {
        Ok(re) => Some(re.is_match(text)),
        Err(_) => None,
    }
}

/// Whether `entry` marks `version` as a pre-release. A pattern that does not
/// compile marks nothing.
pub open spec fn entry_matches(entry: PreReleasePatternEntry, version: Seq<char>) -> bool {
    regex_match(entry.pattern@, version) == Some(true)
}

/// Whether none of the first `n` patterns marks `version` as a pre-release.
pub open spec fn none_match(
    patterns: Seq<PreReleasePatternEntry>,
    version: Seq<char>,
    n: int,
) -> bool {
    forall|j: int| 0 <= j < n && j < patterns.len() ==> !entry_matches(#[trigger] patterns[j], version)
}

/// Whether `version` is a release: no pattern marks it as a pre-release.
pub open spec fn is_release(patterns: Seq<PreReleasePatternEntry>, version: Seq<char>) -> bool {
    none_match(patterns, version, patterns.len() as int)
}

/// Whether `i` is the first pattern that marks `version` as a pre-release.
pub open spec fn first_match_at(
    patterns: Seq<PreReleasePatternEntry>,
    version: Seq<char>,
    i: int,
) -> bool {
    &&& 0 <= i < patterns.len()
    &&& entry_matches(patterns[i], version)
    &&& none_match(patterns, version, i)
}

/// Tests whether one pattern marks `version` as a pre-release.
pub fn pattern_matches(entry: &PreReleasePatternEntry, version: &str) -> (r: bool)
    ensures
        r == entry_matches(*entry, version@),
{
    match regex_is_match(entry.pattern.as_str(), version) {
        Some(found) => found,
        None => false,
    }
}

/// The label of the first pattern that matches `version`, or `None` where the
/// version is a release.
pub fn parse_pre_release<'a>(
    version: &str,
    pre_release_patterns: &'a Vec<PreReleasePatternEntry>,
) -> (r: Option<&'a str>)
    ensures
        r is None <==> is_release(pre_release_patterns@, version@),
        r is Some ==> exists|i: int| #[trigger]
            first_match_at(pre_release_patterns@, version@, i) && r->0@
                == pre_release_patterns@[i].display_name@,
{
    let mut i: usize = 0;
    while i < pre_release_patterns.len()
        invariant
            i <= pre_release_patterns.len(),
            none_match(pre_release_patterns@, version@, i as int),
        decreases pre_release_patterns.len() - i,
    {
        if pattern_matches(&pre_release_patterns[i], version) {
            assert(first_match_at(pre_release_patterns@, version@, i as int));
            return Some(pre_release_patterns[i].display_name.as_str());
        }
        i = i + 1;
    }
    None
}

} // verus!
