//! Choosing the endpoint that is closest to a client.
//!
//! Distances come in as whole metres, one for each endpoint; measuring them is
//! the caller's work. `None` in place of the list says that the client's place
//! is not known; `None` in place of one distance, that it could not be measured.
//! The closest endpoint is chosen only where every distance is known: in every
//! other case the choice falls on the first endpoint.
use crate::config::{distinct_keys, Endpoint};
use crate::sorting::{before, is_stable_order, stable_order};
use vstd::prelude::*;

verus! {

/// The distance at which an endpoint is put in order when its distance could
/// not be measured.
pub const UNKNOWN_DISTANCE: u64 = 9999999;

/// The key by which an endpoint is ordered.
pub open spec fn distance_key(distance: Option<u64>) -> u64 {
    match distance {
        Some(metres) => metres,
        None => UNKNOWN_DISTANCE,
    }
}

/// The keys of a list of distances.
pub open spec fn distance_keys(distances: Seq<Option<u64>>) -> Seq<u64> {
    distances.map_values(|d: Option<u64>| distance_key(d))
}

/// Whether `i` is the closest endpoint: none is closer, and none before it is
/// as close.
pub open spec fn is_closest(keys: Seq<u64>, i: int) -> bool {
    &&& 0 <= i < keys.len()
    &&& forall|j: int| 0 <= j < keys.len() ==> keys[i] <= #[trigger] keys[j]
    &&& forall|j: int| 0 <= j < i ==> keys[i] < #[trigger] keys[j]
}

/// The keys of a list of distances.
pub fn keys_of(distances: &Vec<Option<u64>>) -> (r: Vec<u64>)
    ensures
        r@ == distance_keys(distances@),
{
    let mut out: Vec<u64> = Vec::new();
    let mut i: usize = 0;
    while i < distances.len()
        invariant
            i <= distances.len(),
            out@.len() == i,
            forall|k: int| 0 <= k < i ==> #[trigger] out@[k] == distance_key(distances@[k]),
        decreases distances.len() - i,
    {
        out.push(
            match distances[i] {
                Some(metres) => metres,
                None => UNKNOWN_DISTANCE,
            },
        );
        i = i + 1;
    }
    assert(out@ =~= distance_keys(distances@));
    out
}

/// The position of the closest endpoint.
pub fn closest_index(keys: &Vec<u64>) -> (r: usize)
    requires
        keys@.len() > 0,
    ensures
        is_closest(keys@, r as int),
{
    let mut best: usize = 0;
    let mut i: usize = 1;
    while i < keys.len()
        invariant
            0 <= best < i <= keys.len(),
            forall|j: int| 0 <= j < i ==> keys@[best as int] <= #[trigger] keys@[j],
            forall|j: int| 0 <= j < best ==> keys@[best as int] < #[trigger] keys@[j],
        decreases keys.len() - i,
    {
        if keys[i] < keys[best] {
            best = i;
        }
        i = i + 1;
    }
    best
}

/// Whether every distance of the list was measured.
pub open spec fn all_measured(distances: Seq<Option<u64>>) -> bool {
    forall|i: int| 0 <= i < distances.len() ==> (#[trigger] distances[i]) is Some
}

/// Whether the distances say which of `n` endpoints is the closest: there is one
/// distance for each endpoint, and each was measured.
pub open spec fn usable(distances: Option<&Vec<Option<u64>>>, n: nat) -> bool {
    distances is Some && distances->0@.len() == n && all_measured(distances->0@)
}

/// Whether `i` is the position of the endpoint to choose among `n`: the closest
/// one where the distances say which that is, else the first.
pub open spec fn is_best(distances: Option<&Vec<Option<u64>>>, n: nat, i: int) -> bool {
    if usable(distances, n) {
        is_closest(distance_keys(distances->0@), i)
    } else {
        i == 0
    }
}

/// The distances as keys, where every one of them was measured.
pub fn measured_keys(distances: &Vec<Option<u64>>) -> (r: Option<Vec<u64>>)
    ensures
        r is Some <==> all_measured(distances@),
        r is Some ==> r->0@ == distance_keys(distances@),
{
    let mut out: Vec<u64> = Vec::new();
    let mut i: usize = 0;
    while i < distances.len()
        invariant
            i <= distances.len(),
            out@.len() == i,
            forall|k: int| 0 <= k < i ==> (#[trigger] distances@[k]) is Some,
            forall|k: int| 0 <= k < i ==> #[trigger] out@[k] == distance_key(distances@[k]),
        decreases distances.len() - i,
    {
        match distances[i] {
            Some(metres) => {
                out.push(metres);
            },
            None => {
                assert(!(distances@[i as int] is Some));
                return None;
            },
        }
        i = i + 1;
    }
    assert(out@ =~= distance_keys(distances@));
    Some(out)
}

/// The endpoint closest to the client; of several at one distance the first in
/// priority order. The first endpoint where the client's place is not known,
/// where a distance could not be measured, and where the list of distances does
/// not fit the endpoints.
pub fn find_best_location<'a>(endpoints: &'a Vec<Endpoint>, distances: Option<&Vec<Option<u64>>>) -> (r:
    &'a Endpoint)
    requires
        endpoints@.len() > 0,
    ensures
        exists|i: int| #[trigger]
            is_best(distances, endpoints@.len(), i) && 0 <= i < endpoints@.len() && *r == endpoints@[i],
        !usable(distances, endpoints@.len()) ==> *r == endpoints@[0],
{
    match distances {
        None => {
            assert(is_best(distances, endpoints@.len(), 0));
            &endpoints[0]
        },
        Some(d) => {
            if d.len() != endpoints.len() {
                assert(is_best(distances, endpoints@.len(), 0));
                return &endpoints[0];
            }
            match measured_keys(d) {
                Some(keys) => {
                    let best = closest_index(&keys);
                    assert(is_best(distances, endpoints@.len(), best as int));
                    &endpoints[best]
                },
                None => {
                    assert(is_best(distances, endpoints@.len(), 0));
                    &endpoints[0]
                },
            }
        },
    }
}

/// Orders the endpoints by their distance, the closest first; endpoints at one
/// distance keep their order. An endpoint whose distance could not be measured
/// is put in order as if it were `UNKNOWN_DISTANCE` metres away, so that the
/// endpoints that were measured still come out by their distance. Where the
/// place to measure from is not known, or the list of distances does not fit the
/// endpoints, the order stays as it is.
pub fn sort_by_location(endpoints: &mut Vec<Endpoint>, distances: Option<&Vec<Option<u64>>>)
    ensures
        match distances {
            Some(d) if d@.len() == old(endpoints)@.len() => exists|order: Seq<usize>|
                {
                    &&& #[trigger] is_stable_order(distance_keys(d@), order)
                    &&& final(endpoints)@.len() == old(endpoints)@.len()
                    &&& forall|k: int|
                        0 <= k < order.len() ==> #[trigger] final(endpoints)@[k] == old(endpoints)@[order[k] as int]
                },
            _ => final(endpoints)@ == old(endpoints)@,
        },
        distinct_keys(old(endpoints)@) ==> distinct_keys(final(endpoints)@),
{
    let fits = match distances {
        Some(d) => d.len() == endpoints.len(),
        None => false,
    };
    if !fits {
        return ;
    }
    if let Some(d) = distances {
        let keys = keys_of(d);
        let order = stable_order(&keys);
        let mut sorted: Vec<Endpoint> = Vec::new();
        let mut k: usize = 0;
        while k < order.len()
            invariant
                k <= order@.len(),
                order@.len() == endpoints@.len(),
                is_stable_order(keys@, order@),
                sorted@.len() == k,
                forall|j: int| 0 <= j < k ==> #[trigger] sorted@[j] == endpoints@[order@[j] as int],
            decreases order@.len() - k,
        {
            let e = &endpoints[order[k]];
            sorted.push(
                Endpoint {
                    key: e.key.clone(),
                    display_name: e.display_name.clone(),
                    url: e.url.clone(),
                    location: e.location.clone(),
                },
            );
            k = k + 1;
        }
        proof {
            if distinct_keys(endpoints@) {
                assert forall|a: int, b: int| 0 <= a < b < sorted@.len() implies (#[trigger] sorted@[a]).key@
                    != (#[trigger] sorted@[b]).key@ by {
                    let x = order@[a] as int;
                    let y = order@[b] as int;
                    assert(before(keys@, x, y));
                    assert(x != y);
                    if x < y {
                        assert(endpoints@[x].key@ != endpoints@[y].key@);
                    } else {
                        assert(endpoints@[y].key@ != endpoints@[x].key@);
                    }
                }
            }
        }
        *endpoints = sorted;
    }
}

} // verus!
