//! A map from strings to strings that is kept in the order of its keys.
use crate::text::{lemma_seq_lt_total, seq_lt, str_lt};
use vstd::prelude::*;

verus! {

/// Entries as plain text.
pub type Entries = Seq<(Seq<char>, Seq<char>)>;

/// The view of one entry.
pub open spec fn entry_view(e: (String, String)) -> (Seq<char>, Seq<char>) {
    (e.0@, e.1@)
}

/// Whether the keys rise strictly from each entry to the next.
pub open spec fn sorted(entries: Entries) -> bool {
    forall|i: int| 0 <= i < entries.len() - 1 ==> seq_lt(#[trigger] entries[i].0, entries[i + 1].0)
}

/// The number of entries at the front whose key comes before `key`.
pub open spec fn rank(entries: Entries, key: Seq<char>) -> int
    decreases entries.len(),
{
    if entries.len() == 0 || !seq_lt(entries[0].0, key) {
        0
    } else {
        1 + rank(entries.drop_first(), key)
    }
}

/// The entries with `value` stored under `key`: in place of the entry that has
/// the key, or as a new entry where the key belongs.
pub open spec fn insert_spec(entries: Entries, key: Seq<char>, value: Seq<char>) -> Entries {
    let i = rank(entries, key);
    if i < entries.len() && entries[i].0 == key {
        entries.update(i, (key, value))
    } else {
        entries.insert(i, (key, value))
    }
}

/// The position of the first entry with `key`, or `None`.
pub open spec fn find(entries: Entries, key: Seq<char>) -> Option<int> {
    if exists|i: int| 0 <= i < entries.len() && #[trigger] entries[i].0 == key {
        Some(choose|i: int| 0 <= i < entries.len() && #[trigger] entries[i].0 == key)
    } else {
        None
    }
}

/// In sorted entries no key occurs twice: the entry found under a key is the
/// entry with that key.
pub proof fn lemma_find_unique(entries: Entries, key: Seq<char>)
    requires
        sorted(entries),
    ensures
        forall|i: int, j: int|
            0 <= i < entries.len() && 0 <= j < entries.len() && #[trigger] entries[i].0 == key
                && #[trigger] entries[j].0 == key ==> i == j,
{
    assert forall|i: int, j: int|
        0 <= i < entries.len() && 0 <= j < entries.len() && #[trigger] entries[i].0 == key
            && #[trigger] entries[j].0 == key implies i == j by {
        if i < j {
            lemma_sorted_pair(entries, i, j);
            crate::text::lemma_seq_lt_total(entries[i].0, entries[j].0);
        } else if j < i {
            lemma_sorted_pair(entries, j, i);
            crate::text::lemma_seq_lt_total(entries[j].0, entries[i].0);
        }
    }
}

/// In sorted entries an earlier key comes before every later one.
pub proof fn lemma_sorted_pair(entries: Entries, i: int, j: int)
    requires
        sorted(entries),
        0 <= i < j < entries.len(),
    ensures
        seq_lt(entries[i].0, entries[j].0),
    decreases j - i,
{
    if i + 1 < j {
        lemma_sorted_pair(entries, i, j - 1);
        assert(seq_lt(entries[j - 1].0, entries[j].0));
        crate::text::lemma_seq_lt_trans(entries[i].0, entries[j - 1].0, entries[j].0);
    }
}

/// `i` is the rank of `key` where every entry before `i` has a smaller key and
/// the entry at `i`, if there is one, has not.
pub proof fn lemma_rank(entries: Entries, key: Seq<char>, i: int)
    requires
        0 <= i <= entries.len(),
        forall|j: int| 0 <= j < i ==> seq_lt(#[trigger] entries[j].0, key),
        i < entries.len() ==> !seq_lt(entries[i].0, key),
    ensures
        rank(entries, key) == i,
    decreases i,
{
    if i > 0 {
        assert(seq_lt(entries[0].0, key));
        let rest = entries.drop_first();
        assert forall|j: int| 0 <= j < i - 1 implies seq_lt(#[trigger] rest[j].0, key) by {
            assert(rest[j] == entries[j + 1]);
        }
        if i - 1 < rest.len() {
            assert(rest[i - 1] == entries[i]);
        }
        lemma_rank(rest, key, i - 1);
    }
}

/// A map from strings to strings. Its entries are held in the order of their
/// keys, and no key occurs twice.
pub struct SortedMap {
    entries: Vec<(String, String)>,
}

impl View for SortedMap {
    type V = Entries;

    closed spec fn view(&self) -> Entries {
        self.entries@.map_values(|e: (String, String)| entry_view(e))
    }
}

impl SortedMap {
    #[verifier::type_invariant]
    spec fn inv(self) -> bool {
        sorted(self@)
    }

    /// An empty map.
    pub fn new() -> (r: Self)
        ensures
            r@ == Seq::<(Seq<char>, Seq<char>)>::empty(),
    {
        let r = SortedMap { entries: Vec::new() };
        assert(r@ =~= Seq::<(Seq<char>, Seq<char>)>::empty());
        r
    }

    /// The number of entries.
    pub fn len(&self) -> (r: usize)
        ensures
            r == self@.len(),
            sorted(self@),
    {
        proof {
            use_type_invariant(self);
        }
        self.entries.len()
    }

    /// The key at position `i`.
    pub fn key_at(&self, i: usize) -> (r: &str)
        requires
            i < self@.len(),
        ensures
            r@ == self@[i as int].0,
    {
        self.entries[i].0.as_str()
    }

    /// The value at position `i`.
    pub fn value_at(&self, i: usize) -> (r: &str)
        requires
            i < self@.len(),
        ensures
            r@ == self@[i as int].1,
    {
        self.entries[i].1.as_str()
    }

    /// The value stored under `key`, or `None`.
    pub fn get(&self, key: &str) -> (r: Option<&str>)
        ensures
            r is Some <==> find(self@, key@) is Some,
            r is Some ==> exists|i: int|
                0 <= i < self@.len() && #[trigger] self@[i].0 == key@ && self@[i].1 == r->0@,
    {
        let mut i: usize = 0;
        while i < self.entries.len()
            invariant
                i <= self.entries.len(),
                forall|j: int| 0 <= j < i ==> #[trigger] self@[j].0 != key@,
            decreases self.entries.len() - i,
        {
            if self.entries[i].0.as_str().eq(key) {
                assert(self@[i as int].0 == key@);
                return Some(self.entries[i].1.as_str());
            }
            i = i + 1;
        }
        None
    }

    /// Stores `value` under `key`, in place of what was stored there.
    pub fn insert(&mut self, key: String, value: String)
        ensures
            sorted(old(self)@),
            sorted(final(self)@),
            final(self)@ == insert_spec(old(self)@, key@, value@),
    {
        let mut taken = SortedMap::new();
        core::mem::swap(self, &mut taken);
        proof {
            use_type_invariant(&taken);
        }
        let ghost before = taken@;
        let SortedMap { mut entries } = taken;
        let mut i: usize = 0;
        while i < entries.len() && str_lt(entries[i].0.as_str(), key.as_str())
            invariant
                i <= entries.len(),
                entries@.map_values(|e: (String, String)| entry_view(e)) == before,
                forall|j: int| 0 <= j < i ==> seq_lt(#[trigger] before[j].0, key@),
            decreases entries.len() - i,
        {
            i = i + 1;
        }
        proof {
            lemma_rank(before, key@, i as int);
        }
        let ghost entry = (key@, value@);
        if i < entries.len() && entries[i].0.as_str().eq(key.as_str()) {
            entries.set(i, (key, value));
            proof {
                let after = entries@.map_values(|e: (String, String)| entry_view(e));
                assert(after =~= before.update(i as int, entry));
                assert forall|j: int| 0 <= j < after.len() - 1 implies seq_lt(
                    #[trigger] after[j].0,
                    after[j + 1].0,
                ) by {
                    assert(seq_lt(before[j].0, before[j + 1].0));
                }
            }
        } else {
            entries.insert(i, (key, value));
            proof {
                let after = entries@.map_values(|e: (String, String)| entry_view(e));
                assert(after =~= before.insert(i as int, entry));
                assert forall|j: int| 0 <= j < after.len() - 1 implies seq_lt(
                    #[trigger] after[j].0,
                    after[j + 1].0,
                ) by {
                    if j + 1 < i {
                        assert(seq_lt(before[j].0, before[j + 1].0));
                    } else if j + 1 == i {
                        assert(seq_lt(before[j].0, key@));
                    } else if j == i {
                        lemma_seq_lt_total(before[i as int].0, key@);
                    } else {
                        assert(seq_lt(before[j - 1].0, before[j].0));
                    }
                }
            }
        }
        *self = SortedMap { entries };
    }
}

} // verus!
