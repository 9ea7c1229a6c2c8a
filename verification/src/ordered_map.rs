//! An insertion-ordered map keyed by strings.
//!
//! The keys live in an `indexmap::IndexSet`, which gives constant-time lookup of
//! a key's position; the values live in a vector at the same positions.
use indexmap::IndexSet;
use vstd::prelude::*;

verus! {

#[verifier::external_type_specification]
#[verifier::external_body]
#[verifier::reject_recursive_types(T)]
#[verifier::reject_recursive_types(S)]
pub struct ExIndexSet<T, S>(IndexSet<T, S>);

/// The items of a key index, in insertion order.
pub uninterp spec fn key_seq(keys: IndexSet<String>) -> Seq<Seq<char>>;

/// `IndexSet::new`: a fresh set holds nothing.
#[verifier::external_body]
fn keys_new() -> (r: IndexSet<String>)
    ensures
        key_seq(r) == Seq::<Seq<char>>::empty(),
{
    IndexSet::new()
}

/// `IndexSet::insert_full`: an item that is already present stays where it is and
/// the set is unchanged; its index comes back with `false`. A new item goes to the
/// end; its index comes back with `true`.
#[verifier::external_body]
fn keys_insert_full(keys: &mut IndexSet<String>, key: String) -> (r: (usize, bool))
    ensures
        key_seq(*old(keys)).contains(key@) ==> {
            &&& key_seq(*final(keys)) == key_seq(*old(keys))
            &&& !r.1
            &&& r.0 < key_seq(*old(keys)).len()
            &&& key_seq(*old(keys))[r.0 as int] == key@
        },
        !key_seq(*old(keys)).contains(key@) ==> {
            &&& key_seq(*final(keys)) == key_seq(*old(keys)).push(key@)
            &&& r.1
            &&& r.0 == key_seq(*old(keys)).len()
        },
{
    keys.insert_full(key)
}

/// `IndexSet::get_index_of`: the index of an item that is present, `None` for
/// one that is not.
#[verifier::external_body]
fn keys_get_index_of(keys: &IndexSet<String>, key: &str) -> (r: Option<usize>)
    ensures
        match r {
            Some(i) => i < key_seq(*keys).len() && key_seq(*keys)[i as int] == key@,
            None => !key_seq(*keys).contains(key@),
        },
{
    keys.get_index_of(key)
}

/// Indexing an `IndexSet` by position: the item at a valid index.
#[verifier::external_body]
fn keys_at(keys: &IndexSet<String>, index: usize) -> (r: &String)
    requires
        index < key_seq(*keys).len(),
    ensures
        r@ == key_seq(*keys)[index as int],
{
    &keys[index]
}

/// A map from strings to `V` that remembers the order in which keys were first
/// inserted.
pub struct OrderedMap<V> {
    keys: IndexSet<String>,
    values: Vec<V>,
}

impl<V> OrderedMap<V> {
    #[verifier::type_invariant]
    spec fn inv(self) -> bool {
        &&& key_seq(self.keys).len() == self.values@.len()
        &&& key_seq(self.keys).no_duplicates()
    }

    /// The keys, in insertion order.
    pub closed spec fn keys(self) -> Seq<Seq<char>> {
        key_seq(self.keys)
    }

    /// The values, each at the position of its key.
    pub closed spec fn values(self) -> Seq<V> {
        self.values@
    }

    /// One value per key, and no key twice.
    pub open spec fn wf(self) -> bool {
        &&& self.keys().len() == self.values().len()
        &&& self.keys().no_duplicates()
    }

    /// Whether `key` is in the map.
    pub open spec fn has(self, key: Seq<char>) -> bool {
        self.keys().contains(key)
    }

    /// The position of `key`, where it is in the map.
    pub open spec fn position(self, key: Seq<char>) -> int {
        self.keys().index_of(key)
    }

    /// The value stored for `key`, where it is in the map.
    pub open spec fn value_of(self, key: Seq<char>) -> V {
        self.values()[self.position(key)]
    }

    /// In a well-formed map a key found at `i` has position `i`.
    pub proof fn lemma_position(self, key: Seq<char>, i: int)
        requires
            self.wf(),
            0 <= i < self.keys().len(),
            self.keys()[i] == key,
        ensures
            self.has(key),
            self.position(key) == i,
    {
        let j = self.keys().index_of(key);
        assert(self.keys().contains(key));
        assert(0 <= j < self.keys().len() && self.keys()[j] == key);
    }

    /// An empty map.
    pub fn new() -> (r: Self)
        ensures
            r.wf(),
            r.keys() == Seq::<Seq<char>>::empty(),
            r.values() == Seq::<V>::empty(),
    {
        OrderedMap { keys: keys_new(), values: Vec::new() }
    }

    /// The number of entries.
    pub fn len(&self) -> (r: usize)
        ensures
            self.wf(),
            r == self.keys().len(),
    {
        proof {
            use_type_invariant(self);
        }
        self.values.len()
    }

    /// The position of `key`, or `None` where the map does not hold it.
    pub fn get_index_of(&self, key: &str) -> (r: Option<usize>)
        ensures
            self.wf(),
            r is Some <==> self.has(key@),
            r is Some ==> r->0 == self.position(key@) && r->0 < self.keys().len(),
    {
        proof {
            use_type_invariant(self);
        }
        let r = keys_get_index_of(&self.keys, key);
        proof {
            if let Some(i) = r {
                self.lemma_position(key@, i as int);
            }
        }
        r
    }

    /// The value stored for `key`, or `None` where the map does not hold it.
    pub fn get(&self, key: &str) -> (r: Option<&V>)
        ensures
            self.wf(),
            r is Some <==> self.has(key@),
            r is Some ==> *r->0 == self.value_of(key@),
    {
        proof {
            use_type_invariant(self);
        }
        match self.get_index_of(key) {
            Some(i) => Some(&self.values[i]),
            None => None,
        }
    }

    /// The key at position `i`.
    pub fn key_at(&self, i: usize) -> (r: &String)
        requires
            i < self.keys().len(),
        ensures
            self.wf(),
            r@ == self.keys()[i as int],
    {
        proof {
            use_type_invariant(self);
        }
        keys_at(&self.keys, i)
    }

    /// The value at position `i`.
    pub fn value_at(&self, i: usize) -> (r: &V)
        requires
            i < self.keys().len(),
        ensures
            self.wf(),
            *r == self.values()[i as int],
    {
        proof {
            use_type_invariant(self);
        }
        &self.values[i]
    }

    /// Stores `value` under `key`. A key that is already present keeps its position
    /// and gets the new value; a new key goes to the end. No other entry changes.
    pub fn insert(&mut self, key: String, value: V)
        ensures
            old(self).wf(),
            final(self).wf(),
            old(self).has(key@) ==> {
                &&& final(self).keys() == old(self).keys()
                &&& final(self).values() == old(self).values().update(
                    old(self).position(key@),
                    value,
                )
            },
            !old(self).has(key@) ==> {
                &&& final(self).keys() == old(self).keys().push(key@)
                &&& final(self).values() == old(self).values().push(value)
            },
            final(self).has(key@),
            final(self).value_of(key@) == value,
            forall|k: Seq<char>| k != key@ ==> final(self).has(k) == old(self).has(k),
            forall|k: Seq<char>|
                k != key@ && old(self).has(k) ==> final(self).position(k) == old(self).position(k)
                    && final(self).value_of(k) == old(self).value_of(k),
    {
        let mut taken = OrderedMap::new();
        core::mem::swap(self, &mut taken);
        proof {
            use_type_invariant(&taken);
        }
        let ghost before = taken;
        let OrderedMap { mut keys, mut values } = taken;
        let (index, fresh) = keys_insert_full(&mut keys, key);
        if fresh {
            values.push(value);
            proof {
                let k = key_seq(keys);
                assert forall|i: int, j: int| 0 <= i < k.len() && 0 <= j < k.len() && i != j implies k[i] != k[j] by {
                    if i == k.len() - 1 {
                        assert(before.keys()[j] == k[j]);
                    } else if j == k.len() - 1 {
                        assert(before.keys()[i] == k[i]);
                    }
                }
            }
        } else {
            proof {
                before.lemma_position(key@, index as int);
            }
            values.set(index, value);
        }
        *self = OrderedMap { keys, values };
        proof {
            let after = *self;
            let n = before.keys().len() as int;
            if fresh {
                after.lemma_position(key@, n);
                assert forall|k: Seq<char>| k != key@ implies after.has(k) == before.has(k) by {
                    if before.has(k) {
                        let i = before.position(k);
                        assert(after.keys()[i] == k);
                    }
                    if after.has(k) {
                        let i = after.position(k);
                        assert(before.keys()[i] == k);
                    }
                }
                assert forall|k: Seq<char>| k != key@ && before.has(k) implies after.position(k)
                    == before.position(k) && after.value_of(k) == before.value_of(k) by {
                    let i = before.position(k);
                    assert(after.keys()[i] == k);
                    after.lemma_position(k, i);
                }
            } else {
                after.lemma_position(key@, index as int);
                assert forall|k: Seq<char>| k != key@ && before.has(k) implies after.position(k)
                    == before.position(k) && after.value_of(k) == before.value_of(k) by {
                    let i = before.position(k);
                    assert(before.keys()[i] == k);
                    assert(i != index);
                }
            }
        }
    }
}

/// Keys and values as plain text.
pub type TextEntries = Seq<(Seq<char>, Seq<char>)>;

/// The entries of a map from strings to strings, in order.
pub open spec fn text_entries(m: OrderedMap<String>) -> TextEntries {
    Seq::new(m.keys().len(), |i: int| (m.keys()[i], m.values()[i]@))
}

/// Whether `key` is the key of the entry at `i`.
pub open spec fn key_at_is(entries: TextEntries, key: Seq<char>, i: int) -> bool {
    0 <= i < entries.len() && entries[i].0 == key
}

/// The entries with `value` stored under `key`: in place of the entry with that
/// key, or at the end.
pub open spec fn text_insert(entries: TextEntries, key: Seq<char>, value: Seq<char>) -> TextEntries {
    if exists|i: int| key_at_is(entries, key, i) {
        entries.update(choose|i: int| key_at_is(entries, key, i), (key, value))
    } else {
        entries.push((key, value))
    }
}

/// The entries with each of `more` stored, one after the other.
pub open spec fn text_insert_all(entries: TextEntries, more: TextEntries) -> TextEntries
    decreases more.len(),
{
    if more.len() == 0 {
        entries
    } else {
        text_insert(text_insert_all(entries, more.drop_last()), more.last().0, more.last().1)
    }
}

/// Stores a string under a key.
pub fn insert_text(m: &mut OrderedMap<String>, key: String, value: String)
    ensures
        final(m).wf(),
        text_entries(*final(m)) == text_insert(text_entries(*old(m)), key@, value@),
{
    let ghost before = *m;
    m.insert(key, value);
    proof {
        let old_entries = text_entries(before);
        let new_entries = text_entries(*m);
        if before.has(key@) {
            let p = before.position(key@);
            assert(before.keys()[p] == key@);
            assert(key_at_is(old_entries, key@, p));
            let c = choose|i: int| key_at_is(old_entries, key@, i);
            assert(c == p) by {
                assert(before.keys()[c] == key@);
            }
            assert(new_entries =~= old_entries.update(p, (key@, value@)));
        } else {
            assert forall|i: int| !key_at_is(old_entries, key@, i) by {
                if key_at_is(old_entries, key@, i) {
                    assert(before.keys()[i] == key@);
                }
            }
            assert(new_entries =~= old_entries.push((key@, value@)));
        }
    }
}

} // verus!
