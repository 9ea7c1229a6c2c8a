//! The versions of a product, in release order.
use crate::ordered_map::OrderedMap;
use crate::pre_release::{is_release, parse_pre_release};
use crate::storage::{PreReleasePatternEntry, VersionInfo};
use crate::version_order::{consistent, in_version_order, is_after, is_permutation, sorts_after};
use vstd::prelude::*;

verus! {

/// The name of a version with what the list of versions shows for it.
pub struct VersionListEntry<'a> {
    pub name: &'a str,
    pub is_latest: bool,
    pub is_pre_release: bool,
}

/// A map of versions, oldest first.
pub struct ReleaseMap(pub OrderedMap<VersionInfo>);

/// A version together with its name.
pub struct NamedVersion<'a> {
    pub name: &'a str,
    pub info: &'a VersionInfo,
}

impl<'a> NamedVersion<'a> {
    /// The version's name.
    pub fn name(&self) -> (r: &str)
        ensures
            r@ == self.name@,
    {
        self.name
    }

    /// What the catalog says about the version.
    pub fn info(&self) -> (r: &VersionInfo)
        ensures
            *r == *self.info,
    {
        self.info
    }
}

impl ReleaseMap {
    /// The names of the versions, oldest first.
    pub open spec fn names(self) -> Seq<Seq<char>> {
        self.0.keys()
    }

    /// The position of the latest release: the last version that no pattern marks
    /// as a pre-release.
    pub open spec fn latest_at(self, patterns: Seq<PreReleasePatternEntry>, i: int) -> bool {
        &&& 0 <= i < self.names().len()
        &&& is_release(patterns, self.names()[i])
        &&& forall|j: int| i < j < self.names().len() ==> !is_release(patterns, #[trigger] self.names()[j])
    }

    /// Whether the map holds a release at all.
    pub open spec fn has_release(self, patterns: Seq<PreReleasePatternEntry>) -> bool {
        exists|i: int| 0 <= i < self.names().len() && is_release(patterns, #[trigger] self.names()[i])
    }

    /// The latest release is found at one position only.
    pub proof fn lemma_latest_unique(self, patterns: Seq<PreReleasePatternEntry>, i: int, j: int)
        requires
            self.latest_at(patterns, i),
            self.latest_at(patterns, j),
        ensures
            i == j,
    {
        if i < j {
            assert(!is_release(patterns, self.names()[j]));
        } else if j < i {
            assert(!is_release(patterns, self.names()[i]));
        }
    }

    /// All versions, in release order.
    pub fn map(&self) -> (r: &OrderedMap<VersionInfo>)
        ensures
            *r == self.0,
    {
        &self.0
    }

    /// The version named `k`, if the map holds it.
    pub fn get<'a>(&'a self, k: &'a str) -> (r: Option<NamedVersion<'a>>)
        ensures
            r is Some <==> self.0.has(k@),
            r is Some ==> r->0.name@ == k@ && *r->0.info == self.0.value_of(k@),
    {
        match self.0.get(k) {
            Some(v) => Some(NamedVersion { name: k, info: v }),
            None => None,
        }
    }

    /// The versions from the newest to the oldest, each with whether it is a
    /// pre-release and whether it is the latest release.
    pub fn list<'a>(&'a self, pre_release_patterns: &Vec<PreReleasePatternEntry>) -> (r: Vec<
        VersionListEntry<'a>,
    >)
        ensures
            r@.len() == self.names().len(),
            forall|j: int|
                0 <= j < r@.len() ==> {
                    let i = self.names().len() - 1 - j;
                    &&& (#[trigger] r@[j]).name@ == self.names()[i]
                    &&& r@[j].is_pre_release == !is_release(pre_release_patterns@, self.names()[i])
                    &&& r@[j].is_latest == self.latest_at(pre_release_patterns@, i)
                },
    {
        let n = self.0.len();
        let mut out: Vec<VersionListEntry<'a>> = Vec::new();
        let mut had_latest = false;
        let mut done: usize = 0;
        while done < n
            invariant
                n == self.names().len(),
                done <= n,
                out@.len() == done,
                had_latest <==> exists|k: int|
                    n - done <= k < n && is_release(pre_release_patterns@, #[trigger] self.names()[k]),
                forall|j: int|
                    0 <= j < done ==> {
                        let i = n - 1 - j;
                        &&& (#[trigger] out@[j]).name@ == self.names()[i]
                        &&& out@[j].is_pre_release == !is_release(
                            pre_release_patterns@,
                            self.names()[i],
                        )
                        &&& out@[j].is_latest == self.latest_at(pre_release_patterns@, i)
                    },
            decreases n - done,
        {
            let i = n - 1 - done;
            let name = self.0.key_at(i).as_str();
            let pre_release = parse_pre_release(name, pre_release_patterns).is_some();
            let is_latest = !pre_release && !had_latest;
            proof {
                let names = self.names();
                let pats = pre_release_patterns@;
                if is_latest {
                    assert forall|j: int| i < j < names.len() implies !is_release(pats, #[trigger] names[j]) by {
                        if is_release(pats, names[j]) {
                            assert(n - done <= j < n);
                        }
                    }
                } else if !pre_release {
                    let k = choose|k: int| n - done <= k < n && is_release(pats, #[trigger] names[k]);
                    assert(i < k < names.len() && is_release(pats, names[k]));
                }
            }
            out.push(VersionListEntry { name, is_latest, is_pre_release: pre_release });
            proof {
                if !pre_release {
                    assert(is_release(pre_release_patterns@, self.names()[i as int]));
                }
                if had_latest {
                    let k = choose|k: int|
                        n - done <= k < n && is_release(pre_release_patterns@, #[trigger] self.names()[k]);
                    assert(n - (done + 1) <= k < n);
                }
            }
            had_latest = had_latest || !pre_release;
            done = done + 1;
        }
        out
    }

    /// The latest release, or `None` where every version is a pre-release or
    /// there is no version.
    pub fn latest<'a>(&'a self, pre_release_patterns: &Vec<PreReleasePatternEntry>) -> (r: Option<
        NamedVersion<'a>,
    >)
        ensures
            r is Some <==> self.has_release(pre_release_patterns@),
            r is Some ==> exists|i: int| #[trigger]
                self.latest_at(pre_release_patterns@, i) && r->0.name@ == self.names()[i]
                    && *r->0.info == self.0.values()[i],
    {
        let n = self.0.len();
        let mut left: usize = n;
        while left > 0
            invariant
                n == self.names().len(),
                self.0.wf(),
                left <= n,
                forall|j: int| left <= j < n ==> !is_release(pre_release_patterns@, #[trigger] self.names()[j]),
            decreases left,
        {
            let i = left - 1;
            let name = self.0.key_at(i).as_str();
            if parse_pre_release(name, pre_release_patterns).is_none() {
                assert(self.latest_at(pre_release_patterns@, i as int));
                return Some(NamedVersion { name, info: self.0.value_at(i) });
            }
            left = i;
        }
        None
    }
}

/// The names of a list of versions.
pub open spec fn entry_names(entries: Seq<(String, VersionInfo)>) -> Seq<Seq<char>> {
    entries.map_values(|e: (String, VersionInfo)| e.0@)
}

/// The entries at the positions that `order` lists.
pub open spec fn reordered(entries: Seq<(String, VersionInfo)>, order: Seq<int>) -> Seq<
    (String, VersionInfo),
> {
    Seq::new(order.len(), |k: int| entries[order[k]])
}

/// Brings the versions into release order. Versions whose names do not differ
/// in rank keep their order.
fn sort_by_version(entries: &mut Vec<(String, VersionInfo)>) -> (order: Ghost<Seq<int>>)
    ensures
        is_permutation(order@, old(entries)@.len() as int),
        final(entries)@ == reordered(old(entries)@, order@),
        consistent(entry_names(old(entries)@)) ==> in_version_order(entry_names(old(entries)@), order@),
{
    let ghost given = entries@;
    let ghost names = entry_names(given);
    let n = entries.len();
    let ghost mut order: Seq<int> = Seq::new(n as nat, |k: int| k);
    let mut i: usize = 1;
    proof {
        assert(entries@ =~= reordered(given, order));
    }
    while i < n
        invariant
            1 <= i,
            i <= n || n == 0,
            n == given.len(),
            names == entry_names(given),
            entries@.len() == n,
            order.len() == n,
            entries@ == reordered(given, order),
            forall|k: int| i <= k < n ==> order[k] == k,
            forall|k: int| 0 <= k < i && k < n ==> 0 <= #[trigger] order[k] < i,
            order.no_duplicates(),
            consistent(names) ==> forall|a: int, b: int|
                0 <= a < b < i && b < n ==> {
                    &&& !sorts_after(names[#[trigger] order[a]], names[#[trigger] order[b]])
                    &&& !sorts_after(names[order[b]], names[order[a]]) ==> order[a] < order[b]
                },
        decreases n - i,
    {
        let ghost before = entries@;
        let ghost old_order = order;
        let e = entries.remove(i);
        let mut pos: usize = i;
        while pos > 0 && is_after(entries[pos - 1].0.as_str(), e.0.as_str())
            invariant
                pos <= i < n,
                entries@ == before.remove(i as int),
                before.len() == n,
                e == before[i as int],
                forall|k: int| pos <= k < i ==> sorts_after((#[trigger] before[k]).0@, e.0@),
            decreases pos,
        {
            pos = pos - 1;
        }
        entries.insert(pos, e);
        proof {
            order = old_order.remove(i as int).insert(pos as int, i as int);
            let p = pos as int;
            let ii = i as int;
            assert forall|k: int| 0 <= k < n implies #[trigger] order[k] == if k < p {
                old_order[k]
            } else if k == p {
                ii
            } else if k <= ii {
                old_order[k - 1]
            } else {
                old_order[k]
            } by {}
            assert(entries@ =~= reordered(given, order)) by {
                assert forall|k: int| 0 <= k < n implies entries@[k] == given[order[k]] by {
                    if k < p {
                        assert(entries@[k] == before[k]);
                    } else if k == p {
                        assert(entries@[k] == before[ii]);
                    } else if k <= ii {
                        assert(entries@[k] == before[k - 1]);
                    } else {
                        assert(entries@[k] == before[k]);
                    }
                }
            }
            assert(order.no_duplicates()) by {
                assert forall|a: int, b: int| 0 <= a < n && 0 <= b < n && a != b implies order[a] != order[b] by {
                    let x = if a < p {
                        a
                    } else if a == p {
                        ii
                    } else if a <= ii {
                        a - 1
                    } else {
                        a
                    };
                    let y = if b < p {
                        b
                    } else if b == p {
                        ii
                    } else if b <= ii {
                        b - 1
                    } else {
                        b
                    };
                    assert(order[a] == old_order[x] && order[b] == old_order[y]);
                    assert(x != y);
                }
            }
            if consistent(names) {
                assert forall|a: int, b: int| 0 <= a < b < i + 1 && b < n implies {
                    &&& !sorts_after(names[#[trigger] order[a]], names[#[trigger] order[b]])
                    &&& !sorts_after(names[order[b]], names[order[a]]) ==> order[a] < order[b]
                } by {
                    let new_name = names[ii];
                    assert(new_name == e.0@);
                    if b < p {
                    } else if b == p {
                        // `a` stands before the new entry.
                        let last = old_order[p - 1];
                        assert(before[p - 1] == given[last]);
                        assert(!sorts_after(names[last], new_name));
                        if a < p - 1 {
                            assert(!sorts_after(names[old_order[a]], names[old_order[p - 1]]));
                        }
                        assert(!sorts_after(names[old_order[a]], new_name));
                    } else if a == p {
                        // `b` stands behind the new entry.
                        assert(before[b - 1] == given[old_order[b - 1]]);
                        assert(sorts_after(names[old_order[b - 1]], new_name));
                        assert(!sorts_after(names[ii], names[old_order[b - 1]]) || !sorts_after(
                            names[old_order[b - 1]],
                            names[ii],
                        ));
                    } else if a < p {
                        assert(!sorts_after(names[old_order[a]], names[old_order[b - 1]]));
                    } else {
                        assert(!sorts_after(names[old_order[a - 1]], names[old_order[b - 1]]));
                    }
                }
            }
        }
        i = i + 1;
    }
    proof {
        assert forall|k: int| 0 <= k < order.len() implies 0 <= #[trigger] order[k] < n by {
            if k >= i {
                assert(order[k] == k);
            }
        }
    }
    Ghost(order)
}

/// Names and values of the map that holds the first `n` entries, each stored in
/// turn: a name that is already there keeps its place and gets the new value.
pub open spec fn inserted_upto(entries: Seq<(String, VersionInfo)>, n: int) -> (
    Seq<Seq<char>>,
    Seq<VersionInfo>,
)
    decreases n,
{
    if n <= 0 {
        (Seq::empty(), Seq::empty())
    } else {
        let before = inserted_upto(entries, n - 1);
        let entry = entries[n - 1];
        if before.0.contains(entry.0@) {
            (before.0, before.1.update(before.0.index_of(entry.0@), entry.1))
        } else {
            (before.0.push(entry.0@), before.1.push(entry.1))
        }
    }
}

impl ReleaseMap {
    /// The map of these versions, in release order: from the least version to
    /// the greatest wherever the comparison of version numbers orders the names,
    /// and with versions of one rank in the order in which they were given.
    pub fn from_entries(entries: Vec<(String, VersionInfo)>) -> (r: ReleaseMap)
        ensures
            r.0.wf(),
            exists|order: Seq<int>|
                {
                    &&& #[trigger] is_permutation(order, entries@.len() as int)
                    &&& consistent(entry_names(entries@)) ==> in_version_order(
                        entry_names(entries@),
                        order,
                    )
                    &&& (r.names(), r.0.values()) == inserted_upto(
                        reordered(entries@, order),
                        entries@.len() as int,
                    )
                },
    {
        let mut entries = entries;
        let ghost given = entries@;
        let order = sort_by_version(&mut entries);
        let ghost sorted = entries@;
        let n = entries.len();
        let mut map: OrderedMap<VersionInfo> = OrderedMap::new();
        let mut done: usize = 0;
        while done < n
            invariant
                done <= n,
                n == sorted.len(),
                map.wf(),
                entries@ == sorted.skip(done as int),
                (map.keys(), map.values()) == inserted_upto(sorted, done as int),
            decreases n - done,
        {
            let entry = entries.remove(0);
            proof {
                assert(entry == sorted[done as int]);
                assert(entries@ =~= sorted.skip(done + 1));
            }
            map.insert(entry.0, entry.1);
            done = done + 1;
        }
        ReleaseMap(map)
    }
}

} // verus!
