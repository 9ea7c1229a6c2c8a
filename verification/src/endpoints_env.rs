//! Reading the endpoints from environment variables.
//!
//! Each endpoint is described by three variables,
//! `DEPBOX_S3_ENDPOINT__<order>__<key>__DISPLAY_NAME`, `..__URL` and `..__LOC`.
use crate::config::{distinct_keys, Endpoint};
use crate::ordered_map::OrderedMap;
use crate::sorting::{before, is_stable_order, stable_order};
use crate::text::{all_digits, digits_value, parse_u64};
use regex::Regex;
use vstd::prelude::*;

verus! {

pub const ENDPOINTS_NAME_PATTERN: &'static str = r"DEPBOX_S3_ENDPOINT__(\d+)__(.+?)__DISPLAY_NAME";

pub const ENDPOINTS_URL_PATTERN: &'static str = r"DEPBOX_S3_ENDPOINT__(\d+)__(.+?)__URL";

pub const ENDPOINTS_LOC_PATTERN: &'static str = r"DEPBOX_S3_ENDPOINT__(\d+)__(.+?)__LOC";

/// What the capture groups of the first match of the regular expression
/// `pattern` in `text` hold, the whole match first; `None` where there is no
/// match or `pattern` is no regular expression.
pub uninterp spec fn regex_groups(pattern: Seq<char>, text: Seq<char>) -> Option<
    Seq<Option<Seq<char>>>,
>;

/// The view of a match's groups.
pub open spec fn groups_view(groups: Option<Vec<Option<String>>>) -> Option<Seq<Option<Seq<char>>>> {
    match groups {
        Some(g) => Some(
            g@.map_values(
                |s: Option<String>|
                    match s {
                        Some(s) => Some(s@),
                        None => None,
                    },
            ),
        ),
        None => None,
    }
}

/// `Regex::new` followed by `Regex::captures`: the capture groups of the first
/// match. What comes back depends on the two strings alone.
#[verifier::external_body]
fn regex_captures(pattern: &str, text: &str) -> (r: Option<Vec<Option<String>>>)
    ensures
        groups_view(r) == regex_groups(pattern@, text@),
{
    let re = Regex::new(pattern).ok()?;
    let caps = re.captures(text)?;
    Some(caps.iter().map(|m| m.map(|m| m.as_str().to_string())).collect())
}

/// Which of an endpoint's three values a variable holds.
#[derive(PartialEq, Eq, Structural, Clone, Copy, Debug)]
pub enum InsertPos {
    FirstDisplayName,
    SecondUrl,
    ThirdLocation,
}

/// Why the endpoints could not be read.
#[derive(PartialEq, Eq, Structural, Clone, Copy, Debug)]
pub enum EndpointsError {
    /// The order in a variable's name is no number that fits.
    BadOrder,
}

/// What is known of an endpoint while the variables are read.
pub struct EndpointsLoadMapValue(pub Option<String>, pub Option<String>, pub Option<String>, pub u64);

/// An `EndpointsLoadMapValue` as plain values.
pub struct DraftView {
    pub name: Option<Seq<char>>,
    pub url: Option<Seq<char>>,
    pub location: Option<Seq<char>>,
    pub order: u64,
}

/// The view of an optional string.
pub open spec fn text_view(s: Option<String>) -> Option<Seq<char>> {
    match s {
        Some(s) => Some(s@),
        None => None,
    }
}

impl View for EndpointsLoadMapValue {
    type V = DraftView;

    open spec fn view(&self) -> DraftView {
        DraftView {
            name: text_view(self.0),
            url: text_view(self.1),
            location: text_view(self.2),
            order: self.3,
        }
    }
}

/// What the name of a variable says: nothing where it names no endpoint, else
/// the value that it holds, with the order and the endpoint's key as written.
pub open spec fn variable_kind(name: Seq<char>) -> Option<(InsertPos, Seq<Option<Seq<char>>>)> {
    if regex_groups(ENDPOINTS_NAME_PATTERN@, name) is Some {
        Some((InsertPos::FirstDisplayName, regex_groups(ENDPOINTS_NAME_PATTERN@, name)->0))
    } else if regex_groups(ENDPOINTS_URL_PATTERN@, name) is Some {
        Some((InsertPos::SecondUrl, regex_groups(ENDPOINTS_URL_PATTERN@, name)->0))
    } else if regex_groups(ENDPOINTS_LOC_PATTERN@, name) is Some {
        Some((InsertPos::ThirdLocation, regex_groups(ENDPOINTS_LOC_PATTERN@, name)->0))
    } else {
        None
    }
}

/// The order that a match names, where it is a number that fits.
pub open spec fn order_of(groups: Seq<Option<Seq<char>>>) -> Option<u64> {
    if groups.len() >= 3 && groups[1] is Some && groups[2] is Some && groups[1]->0.len() > 0 && all_digits(
        groups[1]->0,
    ) && digits_value(groups[1]->0) <= u64::MAX {
        Some(digits_value(groups[1]->0) as u64)
    } else {
        None
    }
}

/// The draft with one value set.
pub open spec fn draft_with(draft: DraftView, pos: InsertPos, value: Seq<char>) -> DraftView {
    match pos {
        InsertPos::FirstDisplayName => DraftView { name: Some(value), ..draft },
        InsertPos::SecondUrl => DraftView { url: Some(value), ..draft },
        InsertPos::ThirdLocation => DraftView { location: Some(value), ..draft },
    }
}

/// A draft that knows nothing but its order.
pub open spec fn blank_draft(order: u64) -> DraftView {
    DraftView { name: None, url: None, location: None, order }
}

/// Keys and drafts after the first `n` variables were read. The first variable
/// of an endpoint decides its order; later ones only add their value.
pub open spec fn drafts_upto(vars: Seq<(String, String)>, n: int) -> Result<
    (Seq<Seq<char>>, Seq<DraftView>),
    EndpointsError,
>
    decreases n,
{
    if n <= 0 {
        Ok((Seq::empty(), Seq::empty()))
    } else {
        match drafts_upto(vars, n - 1) {
            Err(e) => Err(e),
            Ok((keys, drafts)) => match variable_kind(vars[n - 1].0@) {
                None => Ok((keys, drafts)),
                Some((pos, groups)) => match order_of(groups) {
                    None => Err(EndpointsError::BadOrder),
                    Some(order) => {
                        let key = groups[2]->0;
                        let value = vars[n - 1].1@;
                        if keys.contains(key) {
                            let at = keys.index_of(key);
                            Ok((keys, drafts.update(at, draft_with(drafts[at], pos, value))))
                        } else {
                            Ok(
                                (
                                    keys.push(key),
                                    drafts.push(draft_with(blank_draft(order), pos, value)),
                                ),
                            )
                        }
                    },
                },
            },
        }
    }
}

/// An endpoint as plain text.
pub struct EndpointView {
    pub key: Seq<char>,
    pub display_name: Seq<char>,
    pub url: Seq<char>,
    pub location: Seq<char>,
}

/// The views of a list of endpoints.
pub open spec fn endpoint_views(endpoints: Seq<Endpoint>) -> Seq<EndpointView> {
    endpoints.map_values(
        |e: Endpoint|
            EndpointView { key: e.key@, display_name: e.display_name@, url: e.url@, location: e.location@ },
    )
}

/// The orders of a list of drafts.
pub open spec fn draft_orders(drafts: Seq<DraftView>) -> Seq<u64> {
    drafts.map_values(|d: DraftView| d.order)
}

/// The endpoints among the first `n` positions of `order` whose three values
/// are all known.
pub open spec fn complete_upto(keys: Seq<Seq<char>>, drafts: Seq<DraftView>, order: Seq<usize>, n: int) -> Seq<
    EndpointView,
>
    decreases n,
{
    if n <= 0 {
        Seq::empty()
    } else {
        let before = complete_upto(keys, drafts, order, n - 1);
        let at = order[n - 1] as int;
        let draft = drafts[at];
        if draft.name is Some && draft.url is Some && draft.location is Some {
            before.push(
                EndpointView {
                    key: keys[at],
                    display_name: draft.name->0,
                    url: draft.url->0,
                    location: draft.location->0,
                },
            )
        } else {
            before
        }
    }
}

/// What a variable's name says.
fn classify(name: &str) -> (r: Option<(InsertPos, Vec<Option<String>>)>)
    ensures
        match r {
            Some((pos, groups)) => variable_kind(name@) == Some((pos, groups_view(Some(groups))->0)),
            None => variable_kind(name@) is None,
        },
{
    if let Some(groups) = regex_captures(ENDPOINTS_NAME_PATTERN, name) {
        Some((InsertPos::FirstDisplayName, groups))
    } else if let Some(groups) = regex_captures(ENDPOINTS_URL_PATTERN, name) {
        Some((InsertPos::SecondUrl, groups))
    } else if let Some(groups) = regex_captures(ENDPOINTS_LOC_PATTERN, name) {
        Some((InsertPos::ThirdLocation, groups))
    } else {
        None
    }
}

fn copy_text(s: &Option<String>) -> (r: Option<String>)
    ensures
        text_view(r) == text_view(*s),
{
    match s {
        Some(s) => Some(s.clone()),
        None => None,
    }
}

/// Records one value of an endpoint.
fn insert_into(map: &mut OrderedMap<EndpointsLoadMapValue>, pos: InsertPos, key: String, value: String, order: u64)
    ensures
        final(map).wf(),
        final(map).keys() == if old(map).has(key@) {
            old(map).keys()
        } else {
            old(map).keys().push(key@)
        },
        draft_views(final(map).values()) == if old(map).has(key@) {
            draft_views(old(map).values()).update(
                old(map).keys().index_of(key@),
                draft_with(
                    draft_views(old(map).values())[old(map).keys().index_of(key@)],
                    pos,
                    value@,
                ),
            )
        } else {
            draft_views(old(map).values()).push(draft_with(blank_draft(order), pos, value@))
        },
{
    let ghost before = *map;
    let draft = match map.get(key.as_str()) {
        Some(old_draft) => match pos {
            InsertPos::FirstDisplayName => EndpointsLoadMapValue(
                Some(value),
                copy_text(&old_draft.1),
                copy_text(&old_draft.2),
                old_draft.3,
            ),
            InsertPos::SecondUrl => EndpointsLoadMapValue(
                copy_text(&old_draft.0),
                Some(value),
                copy_text(&old_draft.2),
                old_draft.3,
            ),
            InsertPos::ThirdLocation => EndpointsLoadMapValue(
                copy_text(&old_draft.0),
                copy_text(&old_draft.1),
                Some(value),
                old_draft.3,
            ),
        },
        None => match pos {
            InsertPos::FirstDisplayName => EndpointsLoadMapValue(Some(value), None, None, order),
            InsertPos::SecondUrl => EndpointsLoadMapValue(None, Some(value), None, order),
            InsertPos::ThirdLocation => EndpointsLoadMapValue(None, None, Some(value), order),
        },
    };
    map.insert(key, draft);
    proof {
        if before.has(key@) {
            let at = before.keys().index_of(key@);
            assert(draft_views(map.values()) =~= draft_views(before.values()).update(
                at,
                draft_with(draft_views(before.values())[at], pos, value@),
            ));
        } else {
            assert(draft_views(map.values()) =~= draft_views(before.values()).push(
                draft_with(blank_draft(order), pos, value@),
            ));
        }
    }
}

/// The views of a list of drafts.
pub open spec fn draft_views(drafts: Seq<EndpointsLoadMapValue>) -> Seq<DraftView> {
    drafts.map_values(|d: EndpointsLoadMapValue| d@)
}

/// What the environment says about the endpoints: the endpoints whose display
/// name, URL and location are all set, by the order in their variables' names;
/// endpoints of one order stand as their first variables do. `BadOrder` where
/// the order in a variable's name is no number that fits.
pub open spec fn loaded_endpoints(vars: Seq<(String, String)>, endpoints: Seq<EndpointView>) -> bool {
    &&& drafts_upto(vars, vars.len() as int) is Ok
    &&& exists|order: Seq<usize>|
        {
            &&& #[trigger] is_stable_order(
                draft_orders(drafts_upto(vars, vars.len() as int)->Ok_0.1),
                order,
            )
            &&& endpoints == complete_upto(
                drafts_upto(vars, vars.len() as int)->Ok_0.0,
                drafts_upto(vars, vars.len() as int)->Ok_0.1,
                order,
                order.len() as int,
            )
        }
}

/// Reads the endpoints from the environment's variables.
pub fn do_load_from_env(vars: &Vec<(String, String)>) -> (r: Result<Vec<Endpoint>, EndpointsError>)
    ensures
        match r {
            Ok(endpoints) => loaded_endpoints(vars@, endpoint_views(endpoints@)) && distinct_keys(
                endpoints@,
            ),
            Err(e) => drafts_upto(vars@, vars@.len() as int) == Err::<
                (Seq<Seq<char>>, Seq<DraftView>),
                EndpointsError,
            >(e),
        },
{
    let mut endpoints: OrderedMap<EndpointsLoadMapValue> = OrderedMap::new();
    let mut i: usize = 0;
    proof {
        assert(draft_views(endpoints.values()) =~= Seq::empty());
    }
    while i < vars.len()
        invariant
            i <= vars.len(),
            endpoints.wf(),
            drafts_upto(vars@, i as int) == Ok::<(Seq<Seq<char>>, Seq<DraftView>), EndpointsError>(
                (endpoints.keys(), draft_views(endpoints.values())),
            ),
        decreases vars.len() - i,
    {
        let name = vars[i].0.as_str();
        let value = vars[i].1.as_str();
        if let Some((pos, groups)) = classify(name) {
            let order = if groups.len() >= 3 {
                match (&groups[1], &groups[2]) {
                    (Some(digits), Some(_)) => parse_u64(digits.as_str()),
                    _ => None,
                }
            } else {
                None
            };
            let ghost group_views = groups_view(Some(groups))->0;
            proof {
                assert(group_views.len() == groups@.len());
                if groups@.len() >= 3 {
                    assert(group_views[1] == text_view(groups@[1]));
                    assert(group_views[2] == text_view(groups@[2]));
                }
                assert(order == order_of(group_views));
            }
            match order {
                Some(order) => {
                    let key = match &groups[2] {
                        Some(key) => key.clone(),
                        None => String::new(),
                    };
                    insert_into(&mut endpoints, pos, key, String::from_str(value), order);
                },
                None => {
                    proof {
                        lemma_drafts_fail(vars@, i as int + 1, vars@.len() as int);
                    }
                    return Err(EndpointsError::BadOrder);
                },
            }
        }
        i = i + 1;
    }
    let n = endpoints.len();
    let ghost keys = endpoints.keys();
    let ghost drafts = draft_views(endpoints.values());
    assert(drafts_upto(vars@, vars@.len() as int) == Ok::<(Seq<Seq<char>>, Seq<DraftView>), EndpointsError>(
        (keys, drafts),
    ));
    let mut orders: Vec<u64> = Vec::new();
    let mut k: usize = 0;
    while k < n
        invariant
            k <= n,
            n == endpoints.keys().len(),
            endpoints.wf(),
            orders@.len() == k,
            forall|j: int| 0 <= j < k ==> #[trigger] orders@[j] == endpoints.values()[j].3,
        decreases n - k,
    {
        orders.push(endpoints.value_at(k).3);
        k = k + 1;
    }
    proof {
        assert(orders@ =~= draft_orders(drafts));
    }
    let order = stable_order(&orders);
    let mut final_endpoints: Vec<Endpoint> = Vec::new();
    let ghost mut sources: Seq<int> = Seq::empty();
    let mut k: usize = 0;
    while k < order.len()
        invariant
            k <= order@.len(),
            n == endpoints.keys().len(),
            endpoints.wf(),
            is_stable_order(orders@, order@),
            orders@.len() == n,
            keys == endpoints.keys(),
            drafts == draft_views(endpoints.values()),
            orders@ == draft_orders(drafts),
            drafts_upto(vars@, vars@.len() as int) == Ok::<(Seq<Seq<char>>, Seq<DraftView>), EndpointsError>(
                (keys, drafts),
            ),
            endpoint_views(final_endpoints@) == complete_upto(keys, drafts, order@, k as int),
            sources.len() == final_endpoints@.len(),
            forall|j: int|
                0 <= j < sources.len() ==> 0 <= #[trigger] sources[j] < k && final_endpoints@[j].key@
                    == endpoints.keys()[order@[sources[j]] as int],
            forall|a: int, b: int| 0 <= a < b < sources.len() ==> #[trigger] sources[a] < #[trigger] sources[b],
        decreases order@.len() - k,
    {
        let at = order[k];
        let draft = endpoints.value_at(at);
        let ghost shown = endpoint_views(final_endpoints@);
        if let (Some(display_name), Some(url), Some(location)) = (&draft.0, &draft.1, &draft.2) {
            let endpoint = Endpoint {
                key: endpoints.key_at(at).clone(),
                display_name: display_name.clone(),
                url: url.clone(),
                location: location.clone(),
            };
            final_endpoints.push(endpoint);
            proof {
                sources = sources.push(k as int);
                assert(endpoint_views(final_endpoints@) =~= shown.push(
                    EndpointView {
                        key: endpoints.keys()[at as int],
                        display_name: display_name@,
                        url: url@,
                        location: location@,
                    },
                ));
            }
        }
        k = k + 1;
    }
    proof {
        assert forall|a: int, b: int| 0 <= a < b < final_endpoints@.len() implies (#[trigger] final_endpoints@[a]).key@
            != (#[trigger] final_endpoints@[b]).key@ by {
            let x = order@[sources[a]] as int;
            let y = order@[sources[b]] as int;
            assert(before(orders@, x, y));
            assert(x != y);
            assert(endpoints.keys()[x] != endpoints.keys()[y]);
        }
        assert(is_stable_order(draft_orders(drafts), order@));
        assert(endpoint_views(final_endpoints@) == complete_upto(keys, drafts, order@, order@.len() as int));
        let all = drafts_upto(vars@, vars@.len() as int);
        assert(all->Ok_0.0 == keys && all->Ok_0.1 == drafts);
        assert(is_stable_order(draft_orders(all->Ok_0.1), order@));
        assert(endpoint_views(final_endpoints@) == complete_upto(
            all->Ok_0.0,
            all->Ok_0.1,
            order@,
            order@.len() as int,
        ));
    }
    Ok(final_endpoints)
}

/// Once the variables cannot be read, no further variable mends it.
proof fn lemma_drafts_fail(vars: Seq<(String, String)>, from: int, to: int)
    requires
        0 <= from <= to,
        drafts_upto(vars, from) is Err,
    ensures
        drafts_upto(vars, to) == drafts_upto(vars, from),
    decreases to - from,
{
    if from < to {
        lemma_drafts_fail(vars, from, to - 1);
    }
}

} // verus!
