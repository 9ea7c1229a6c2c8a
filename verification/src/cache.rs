//! A cache whose entries live for a fixed time, with at most one fetch under way
//! for each key.
use crate::ordered_map::OrderedMap;
use vstd::prelude::*;

verus! {

/// A cached value and the time at which it was fetched.
pub struct CacheEntry<V> {
    pub value: V,
    pub fetched_at: u64,
}

/// What the cache knows about one key.
pub struct CacheSlot<V> {
    pub entry: Option<CacheEntry<V>>,
    /// Whether a caller is fetching the value right now.
    pub in_flight: bool,
}

/// What a caller who wants the value of a key has to do.
#[derive(PartialEq, Eq, Structural, Clone, Copy, Debug)]
pub enum Claim {
    /// The cached value is valid: take it.
    Hit,
    /// Nobody is fetching: fetch the value and report it with `complete`.
    Fetch,
    /// Another caller is fetching: wait for its result.
    Wait,
}

/// An entry is valid while less than `ttl` has passed since it was fetched.
pub open spec fn entry_valid(fetched_at: u64, now: u64, ttl: u64) -> bool {
    now - fetched_at < ttl
}

/// Whether the slot holds a valid entry at the time `now`.
pub open spec fn slot_fresh<V>(slot: CacheSlot<V>, now: u64, ttl: u64) -> bool {
    slot.entry matches Some(e) && entry_valid(e.fetched_at, now, ttl)
}

/// What a caller at the time `now` has to do.
pub open spec fn claim_of<V>(slot: CacheSlot<V>, now: u64, ttl: u64) -> Claim {
    if slot_fresh(slot, now, ttl) {
        Claim::Hit
    } else if slot.in_flight {
        Claim::Wait
    } else {
        Claim::Fetch
    }
}

/// The slot after a caller has asked at the time `now`: the caller who is told to
/// fetch is the one fetch under way.
pub open spec fn slot_after_claim<V>(slot: CacheSlot<V>, now: u64, ttl: u64) -> CacheSlot<V> {
    CacheSlot { entry: slot.entry, in_flight: slot.in_flight || claim_of(slot, now, ttl) is Fetch }
}

/// The slot after the fetch has ended at the time `now`: a value that was
/// fetched is the new entry, a failure leaves the old one.
pub open spec fn slot_after_complete<V>(slot: CacheSlot<V>, outcome: Option<V>, now: u64) -> CacheSlot<V> {
    CacheSlot {
        entry: match outcome {
            Some(value) => Some(CacheEntry { value, fetched_at: now }),
            None => slot.entry,
        },
        in_flight: false,
    }
}

/// While a fetch is under way no second caller is told to fetch.
pub proof fn lemma_single_flight<V>(slot: CacheSlot<V>, first: u64, second: u64, ttl: u64)
    requires
        claim_of(slot, first, ttl) is Fetch,
    ensures
        !(claim_of(slot_after_claim(slot, first, ttl), second, ttl) is Fetch),
{
}

/// After a fetch has brought a value, every caller within the time to live gets
/// that value and none is told to fetch.
pub proof fn lemma_hit_within_ttl<V>(slot: CacheSlot<V>, value: V, fetched: u64, now: u64, ttl: u64)
    requires
        now - fetched < ttl,
    ensures
        claim_of(slot_after_complete(slot, Some(value), fetched), now, ttl) is Hit,
        slot_after_complete(slot, Some(value), fetched).entry->0.value == value,
        slot_after_claim(slot_after_complete(slot, Some(value), fetched), now, ttl)
            == slot_after_complete(slot, Some(value), fetched),
{
}

/// Two callers who ask for a key that is neither cached nor being fetched cause
/// one fetch: the first is told to fetch, the second to wait, and once the first
/// has brought the value, the second gets it for as long as the entry lives.
pub proof fn lemma_two_callers_one_fetch<V>(
    slot: CacheSlot<V>,
    first: u64,
    second: u64,
    fetched: u64,
    later: u64,
    value: V,
    ttl: u64,
)
    requires
        !slot_fresh(slot, first, ttl),
        !slot_fresh(slot, second, ttl),
        !slot.in_flight,
        later - fetched < ttl,
    ensures
        ({
            let asked_once = slot_after_claim(slot, first, ttl);
            let asked_twice = slot_after_claim(asked_once, second, ttl);
            let done = slot_after_complete(asked_twice, Some(value), fetched);
            &&& claim_of(slot, first, ttl) is Fetch
            &&& claim_of(asked_once, second, ttl) is Wait
            &&& claim_of(done, later, ttl) is Hit
            &&& done.entry->0.value == value
            &&& !done.in_flight
        }),
{
}

/// Once the time to live has passed, the next caller is told to fetch.
pub proof fn lemma_expired_refetch<V>(slot: CacheSlot<V>, value: V, fetched: u64, now: u64, ttl: u64)
    requires
        now - fetched >= ttl,
    ensures
        claim_of(slot_after_complete(slot, Some(value), fetched), now, ttl) is Fetch,
{
}

/// A cache from string keys to values that are valid for `ttl` units of time
/// after they were fetched.
pub struct TimedCache<V> {
    ttl: u64,
    entries: OrderedMap<CacheEntry<V>>,
    in_flight: OrderedMap<bool>,
}

impl<V> TimedCache<V> {
    /// The time for which an entry is valid.
    pub closed spec fn ttl(&self) -> u64 {
        self.ttl
    }

    /// What the cache knows about `key`.
    pub closed spec fn slot(&self, key: Seq<char>) -> CacheSlot<V> {
        CacheSlot {
            entry: if self.entries.has(key) {
                Some(self.entries.value_of(key))
            } else {
                None
            },
            in_flight: self.in_flight.has(key) && self.in_flight.value_of(key),
        }
    }

    /// An empty cache.
    pub fn new(ttl: u64) -> (r: Self)
        ensures
            r.ttl() == ttl,
            forall|key: Seq<char>| #[trigger] r.slot(key) == (CacheSlot::<V> { entry: None, in_flight: false }),
    {
        TimedCache { ttl, entries: OrderedMap::new(), in_flight: OrderedMap::new() }
    }

    /// The cached value of `key`, if it is valid at the time `now`.
    pub fn peek(&self, key: &str, now: u64) -> (r: Option<&V>)
        ensures
            r is Some <==> slot_fresh(self.slot(key@), now, self.ttl()),
            r is Some ==> *r->0 == self.slot(key@).entry->0.value,
    {
        match self.entries.get(key) {
            Some(entry) => {
                if now < entry.fetched_at || now - entry.fetched_at < self.ttl {
                    Some(&entry.value)
                } else {
                    None
                }
            },
            None => None,
        }
    }

    /// Asks for the value of `key` at the time `now`. The caller who is told to
    /// fetch owns the fetch until it calls `complete`.
    pub fn claim(&mut self, key: &str, now: u64) -> (r: Claim)
        ensures
            r == claim_of(old(self).slot(key@), now, old(self).ttl()),
            final(self).slot(key@) == slot_after_claim(old(self).slot(key@), now, old(self).ttl()),
            forall|k: Seq<char>| k != key@ ==> #[trigger] final(self).slot(k) == old(self).slot(k),
            final(self).ttl() == old(self).ttl(),
    {
        if self.peek(key, now).is_some() {
            return Claim::Hit;
        }
        let busy = match self.in_flight.get(key) {
            Some(flag) => *flag,
            None => false,
        };
        if busy {
            Claim::Wait
        } else {
            self.in_flight.insert(String::from_str(key), true);
            Claim::Fetch
        }
    }

    /// Ends the fetch of `key` at the time `now`: with the value that was fetched,
    /// or with `None` where the fetch failed.
    pub fn complete(&mut self, key: &str, outcome: Option<V>, now: u64)
        ensures
            final(self).slot(key@) == slot_after_complete(old(self).slot(key@), outcome, now),
            forall|k: Seq<char>| k != key@ ==> #[trigger] final(self).slot(k) == old(self).slot(k),
            final(self).ttl() == old(self).ttl(),
    {
        self.in_flight.insert(String::from_str(key), false);
        if let Some(value) = outcome {
            self.entries.insert(String::from_str(key), CacheEntry { value, fetched_at: now });
        }
    }
}

} // verus!
