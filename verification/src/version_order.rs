//! The order of version names.
use vstd::prelude::*;

verus! {

/// How one version stands to another.
#[derive(PartialEq, Eq, Structural, Clone, Copy, Debug)]
pub enum VersionOrder {
    Less,
    Equal,
    Greater,
}

/// How the version number `a` stands to `b`, as `version_compare` reads them;
/// `None` where one of the two is no version number.
pub uninterp spec fn version_order(a: Seq<char>, b: Seq<char>) -> Option<VersionOrder>;

/// `version_compare::compare`: compares two version numbers. What comes back
/// depends on the two strings alone.
#[verifier::external_body]
pub(crate) fn compare_versions(a: &str, b: &str) -> (r: Option<VersionOrder>)
    ensures
        r == version_order(a@, b@),
{
    match version_compare::compare(a, b) {
        Ok(version_compare::Cmp::Eq) => Some(VersionOrder::Equal),
        Ok(version_compare::Cmp::Lt) => Some(VersionOrder::Less),
        Ok(version_compare::Cmp::Gt) => Some(VersionOrder::Greater),
        _ => None,
    }
}

/// Whether `a` is sorted behind `b`: only where `a` is the greater version. Two
/// names that cannot be compared stay as they are.
pub open spec fn sorts_after(a: Seq<char>, b: Seq<char>) -> bool {
    version_order(a, b) == Some(VersionOrder::Greater)
}

/// Whether `a` is sorted behind `b`.
pub fn is_after(a: &str, b: &str) -> (r: bool)
    ensures
        r == sorts_after(a@, b@),
{
    match compare_versions(a, b) {
        Some(VersionOrder::Greater) => true,
        _ => false,
    }
}

/// Whether the comparison orders these names: of any two, one is not behind the
/// other, and being not behind carries over from name to name.
pub open spec fn consistent(names: Seq<Seq<char>>) -> bool {
    &&& forall|i: int, j: int|
        0 <= i < names.len() && 0 <= j < names.len() ==> !#[trigger] sorts_after(names[i], names[j])
            || !sorts_after(names[j], names[i])
    &&& forall|i: int, j: int, k: int|
        0 <= i < names.len() && 0 <= j < names.len() && 0 <= k < names.len() && !#[trigger] sorts_after(
            names[i],
            names[j],
        ) && !#[trigger] sorts_after(names[j], names[k]) ==> !sorts_after(names[i], names[k])
}

/// Whether `order` lists each of the positions below `n` once.
pub open spec fn is_permutation(order: Seq<int>, n: int) -> bool {
    &&& order.len() == n
    &&& forall|k: int| 0 <= k < order.len() ==> 0 <= #[trigger] order[k] < n
    &&& order.no_duplicates()
}

/// Whether `order` lists the names from the least to the greatest version, names
/// that do not differ in rank in their first order.
pub open spec fn in_version_order(names: Seq<Seq<char>>, order: Seq<int>) -> bool {
    forall|a: int, b: int|
        0 <= a < b < order.len() ==> {
            &&& !sorts_after(names[#[trigger] order[a]], names[#[trigger] order[b]])
            &&& !sorts_after(names[order[b]], names[order[a]]) ==> order[a] < order[b]
        }
}

} // verus!
