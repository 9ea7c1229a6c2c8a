//! The product catalog and the rules for fetching it from the endpoints.
use crate::config::{Endpoint, Endpoints};
use crate::nightly::NightlyConfig;
use crate::ordered_map::OrderedMap;
use crate::release_map::ReleaseMap;
use crate::settings::SettingValue;
use crate::text::{concat3, first_at, first_index, join, join_spec, lemma_first_index, remove_all, split_once, without};
use vstd::hash_map::StringHashMap;
use vstd::prelude::*;

verus! {

/// Name of the catalog document below each endpoint's URL.
pub const PRODUCTS_YML: &'static str = "products.yml";

/// The attribute of a complex download that marks it as no longer supported.
pub const DOWNLOAD_ATTRIBUTE_UNSUPPORTED: &'static str = "unsupported";

/// The catalog: every product, the optional banner and the patterns that mark a
/// version name as a pre-release.
pub struct ProductsConfig {
    pub products: OrderedMap<Product>,
    pub banner: Option<Banner>,
    pub pre_release_patterns: Vec<PreReleasePatternEntry>,
}

/// Where the banner's target URL and image are found.
pub struct Banner {
    pub url_file: String,
    pub image_file: String,
}

/// A regular expression over version names and the label shown for versions
/// that it matches.
pub struct PreReleasePatternEntry {
    pub pattern: String,
    pub display_name: String,
}

/// One product of the catalog.
pub struct Product {
    pub name: String,
    pub icon_path: Option<String>,
    pub settings: StringHashMap<SettingValue>,
    pub versions: ReleaseMap,
    pub nightly: Option<NightlyConfig>,
}

/// One released version of a product.
pub struct VersionInfo {
    pub date: String,
    pub description: Option<String>,
    pub changelog: Option<String>,
    pub changelog_section: Option<u64>,
    pub downloads: OrderedMap<DownloadSpec>,
}

/// What the catalog says about one artifact of a version.
pub enum DownloadSpec {
    Url(String),
    Complex { url: String, attributes: OrderedMap<SettingValue> },
    Null,
}

impl DownloadSpec {
    /// The URL or file name of the download; empty for `Null`.
    pub open spec fn url_view(self) -> Seq<char> {
        match self {
            DownloadSpec::Url(url) => url@,
            DownloadSpec::Complex { url, .. } => url@,
            DownloadSpec::Null => Seq::empty(),
        }
    }

    /// Whether the download carries the attribute `unsupported` with the value
    /// `true`.
    pub open spec fn unsupported(self) -> bool {
        match self {
            DownloadSpec::Complex { attributes, .. } => {
                &&& attributes.has(DOWNLOAD_ATTRIBUTE_UNSUPPORTED@)
                &&& attributes.value_of(DOWNLOAD_ATTRIBUTE_UNSUPPORTED@) matches SettingValue::Bool(b)
                &&& b
            },
            _ => false,
        }
    }

    /// The URL or file name of the download; empty for `Null`.
    pub fn url(&self) -> (r: &str)
        ensures
            r@ == self.url_view(),
    {
        match self {
            DownloadSpec::Url(url) => url.as_str(),
            DownloadSpec::Null => {
                let empty = "";
                proof {
                    reveal_strlit("");
                    assert(empty@ =~= Seq::<char>::empty());
                }
                empty
            },
            DownloadSpec::Complex { url, .. } => url.as_str(),
        }
    }

    /// Whether the download is marked as unsupported.
    pub fn is_unsupported(&self) -> (r: bool)
        ensures
            r == self.unsupported(),
    {
        match self {
            DownloadSpec::Complex { attributes, .. } => {
                if let Some(v) = attributes.get(DOWNLOAD_ATTRIBUTE_UNSUPPORTED) {
                    matches!(v, SettingValue::Bool(true))
                } else {
                    false
                }
            },
            _ => false,
        }
    }
}

impl Product {
    /// A product without icon, settings or nightly builds.
    pub fn new(name: String, versions: ReleaseMap) -> (r: Product)
        ensures
            r.name == name,
            r.icon_path is None,
            r.settings@ == Map::<Seq<char>, SettingValue>::empty(),
            r.versions == versions,
            r.nightly is None,
    {
        Product { name, icon_path: None, settings: StringHashMap::new(), versions, nightly: None }
    }

    /// Stores the setting of one artifact type.
    pub fn set_setting(&mut self, key: String, value: SettingValue)
        ensures
            final(self).settings@ == old(self).settings@.insert(key@, value),
            final(self).name == old(self).name,
            final(self).icon_path == old(self).icon_path,
            final(self).versions == old(self).versions,
            final(self).nightly == old(self).nightly,
    {
        self.settings.insert(key, value);
    }
}

/// Why the catalog or the bucket listing could not be had from an endpoint.
pub enum StorageError {
    /// The request failed.
    Reqwest(String),
    /// The document is no catalog.
    Yaml(String),
    /// Reading a local file failed.
    IOError(String),
    /// The bucket listing failed.
    S3Error(String),
    /// The bucket name could not be extracted from the URL.
    NoBucketFound,
}

/// What to do next while the endpoints are tried in priority order.
pub enum FailoverStep<T, E> {
    /// Ask the endpoint at this position.
    Fetch(usize),
    /// Stop with this result.
    Done(Result<T, E>),
}

/// The step after the endpoint at `index`, one of `total`, answered `outcome`:
/// a success ends the search, a failure moves on to the next endpoint, and the
/// failure of the last endpoint is the failure of the whole.
pub open spec fn failover_after<T, E>(total: int, index: int, outcome: Result<T, E>) -> FailoverStep<
    T,
    E,
> {
    match outcome {
        Ok(value) => FailoverStep::Done(Ok(value)),
        Err(error) => if index + 1 < total {
            FailoverStep::Fetch((index + 1) as usize)
        } else {
            FailoverStep::Done(Err(error))
        },
    }
}

/// Where the search ends when it stands at `index` and each endpoint answers as
/// `outcomes` says: the result, and how many endpoints were asked in all.
pub open spec fn failover_run<T, E>(outcomes: Seq<Result<T, E>>, index: int) -> (Result<T, E>, int)
    recommends
        0 <= index < outcomes.len(),
    decreases outcomes.len() - index,
{
    if 0 <= index < outcomes.len() {
        match failover_after(outcomes.len() as int, index, outcomes[index]) {
            FailoverStep::Fetch(next) => failover_run(outcomes, index + 1),
            FailoverStep::Done(result) => (result, index + 1),
        }
    } else {
        (outcomes[index], index)
    }
}

/// The first step: ask the endpoint of highest priority.
pub fn failover_start<T, E>(total: usize) -> (r: FailoverStep<T, E>)
    requires
        total > 0,
    ensures
        r == FailoverStep::<T, E>::Fetch(0),
{
    FailoverStep::Fetch(0)
}

/// The step after the endpoint at `index` answered `outcome`.
pub fn failover_next<T, E>(total: usize, index: usize, outcome: Result<T, E>) -> (r: FailoverStep<
    T,
    E,
>)
    requires
        index < total,
    ensures
        r == failover_after(total as int, index as int, outcome),
{
    match outcome {
        Ok(value) => FailoverStep::Done(Ok(value)),
        Err(error) => if index + 1 < total {
            FailoverStep::Fetch(index + 1)
        } else {
            FailoverStep::Done(Err(error))
        },
    }
}

/// The first endpoint that succeeds decides: its answer is the result, and no
/// endpoint after it is asked.
pub proof fn lemma_first_success_wins<T, E>(outcomes: Seq<Result<T, E>>, i: int)
    requires
        0 <= i < outcomes.len(),
        outcomes[i] is Ok,
        forall|j: int| 0 <= j < i ==> (#[trigger] outcomes[j]) is Err,
    ensures
        failover_run(outcomes, 0).0 == outcomes[i],
        failover_run(outcomes, 0).1 == i + 1,
{
    lemma_run_from(outcomes, i, 0);
}

/// Where every endpoint fails, the error of the last one asked is the result,
/// and every endpoint was asked.
pub proof fn lemma_all_fail_last_error<T, E>(outcomes: Seq<Result<T, E>>)
    requires
        outcomes.len() > 0,
        forall|j: int| 0 <= j < outcomes.len() ==> (#[trigger] outcomes[j]) is Err,
    ensures
        failover_run(outcomes, 0).0 == outcomes.last(),
        failover_run(outcomes, 0).1 == outcomes.len(),
{
    lemma_run_fail(outcomes, 0);
}

proof fn lemma_run_from<T, E>(outcomes: Seq<Result<T, E>>, i: int, from: int)
    requires
        0 <= from <= i < outcomes.len(),
        outcomes[i] is Ok,
        forall|j: int| 0 <= j < i ==> (#[trigger] outcomes[j]) is Err,
    ensures
        failover_run(outcomes, from).0 == outcomes[i],
        failover_run(outcomes, from).1 == i + 1,
    decreases i - from,
{
    if from < i {
        assert(outcomes[from] is Err);
        lemma_run_from(outcomes, i, from + 1);
    }
}

proof fn lemma_run_fail<T, E>(outcomes: Seq<Result<T, E>>, from: int)
    requires
        0 <= from < outcomes.len(),
        forall|j: int| 0 <= j < outcomes.len() ==> (#[trigger] outcomes[j]) is Err,
    ensures
        failover_run(outcomes, from).0 == outcomes.last(),
        failover_run(outcomes, from).1 == outcomes.len(),
    decreases outcomes.len() - from,
{
    assert(outcomes[from] is Err);
    if from + 1 < outcomes.len() {
        lemma_run_fail(outcomes, from + 1);
    }
}

/// Whether `cb` fails on `endpoint`.
pub open spec fn fails_on<T, F: Fn(&Endpoint) -> Result<T, StorageError>>(endpoint: Endpoint, cb: F) -> bool {
    exists|e: StorageError| #[trigger] call_ensures(cb, (&endpoint,), Err::<T, StorageError>(e))
}

/// Whether `cb` fails on each of the first `n` endpoints.
pub open spec fn all_failed<T, F: Fn(&Endpoint) -> Result<T, StorageError>>(
    endpoints: Seq<Endpoint>,
    cb: F,
    n: int,
) -> bool {
    forall|j: int| 0 <= j < n ==> #[trigger] fails_on::<T, F>(endpoints[j], cb)
}

/// Asks the endpoints in priority order and returns the first answer that is no
/// failure. Where every endpoint fails, the failure of the last one comes back.
pub fn try_with_endpoints<T, F: Fn(&Endpoint) -> Result<T, StorageError>>(
    endpoints: &Vec<Endpoint>,
    cb: F,
) -> (r: Result<T, StorageError>)
    requires
        endpoints@.len() > 0,
        forall|i: int| 0 <= i < endpoints@.len() ==> call_requires(cb, (&#[trigger] endpoints@[i],)),
    ensures
        exists|n: int|
            {
                &&& 0 <= n < endpoints@.len()
                &&& #[trigger] all_failed::<T, F>(endpoints@, cb, n)
                &&& call_ensures(cb, (&endpoints@[n],), r)
                &&& r is Err ==> n == endpoints@.len() - 1
            },
{
    let total = endpoints.len();
    let mut index: usize = 0;
    loop
        invariant
            total == endpoints@.len(),
            index < total,
            forall|i: int| 0 <= i < endpoints@.len() ==> call_requires(cb, (&#[trigger] endpoints@[i],)),
            all_failed::<T, F>(endpoints@, cb, index as int),
        decreases total - index,
    {
        let outcome = cb(&endpoints[index]);
        let ghost asked = outcome;
        match failover_next(total, index, outcome) {
            FailoverStep::Fetch(next) => {
                proof {
                    assert(asked is Err);
                    assert(call_ensures(cb, (&endpoints@[index as int],), Err::<T, StorageError>(asked->Err_0)));
                    assert(fails_on::<T, F>(endpoints@[index as int], cb));
                }
                index = next;
            },
            FailoverStep::Done(result) => {
                assert(result == asked);
                return result;
            },
        }
    }
}

/// The URL of the catalog document on an endpoint.
pub fn products_url(endpoint: &Endpoint) -> (r: String)
    ensures
        r@ == endpoint.url@ + "/"@ + PRODUCTS_YML@,
{
    concat3(endpoint.url.as_str(), "/", PRODUCTS_YML)
}

/// The URLs of the endpoints.
pub open spec fn endpoint_urls(endpoints: Seq<Endpoint>) -> Seq<Seq<char>> {
    endpoints.map_values(|e: Endpoint| e.url@)
}

/// The key under which the catalog of a set of endpoints is cached: their URLs
/// in priority order, separated by commas.
pub fn config_cache_key(endpoints: &Vec<Endpoint>) -> (r: String)
    ensures
        r@ == join_spec(endpoint_urls(endpoints@), ","@),
{
    let mut urls: Vec<String> = Vec::new();
    let mut i: usize = 0;
    while i < endpoints.len()
        invariant
            i <= endpoints.len(),
            urls@.len() == i,
            crate::text::views(urls@) == endpoint_urls(endpoints@).take(i as int),
        decreases endpoints.len() - i,
    {
        let ghost before = urls@;
        urls.push(endpoints[i].url.clone());
        proof {
            let now = crate::text::views(urls@);
            let want = endpoint_urls(endpoints@).take(i + 1);
            assert(now.len() == want.len());
            assert forall|k: int| 0 <= k < now.len() implies now[k] == want[k] by {
                if k < i {
                    assert(crate::text::views(before)[k] == endpoint_urls(endpoints@).take(i as int)[k]);
                    assert(urls@[k] == before[k]);
                }
            }
            assert(now =~= want);
        }
        i = i + 1;
    }
    proof {
        assert(endpoint_urls(endpoints@).take(endpoints@.len() as int) =~= endpoint_urls(endpoints@));
    }
    join(&urls, ",")
}

/// The endpoints that hold the catalog, and what is remembered about them.
pub struct Storage {
    endpoints: Endpoints,
    bucket_list_error_logged: bool,
}

impl Storage {
    /// The endpoints in priority order.
    pub closed spec fn endpoints_view(&self) -> Seq<Endpoint> {
        self.endpoints@
    }

    /// Whether the failure of the bucket listing was reported already.
    pub closed spec fn error_logged(&self) -> bool {
        self.bucket_list_error_logged
    }

    /// The storage on these endpoints.
    pub fn new(endpoints: Endpoints) -> (r: Result<Self, String>)
        ensures
            r is Ok,
            r->Ok_0.endpoints_view() == endpoints@,
            !r->Ok_0.error_logged(),
    {
        Ok(Self { endpoints, bucket_list_error_logged: false })
    }

    /// The endpoints in priority order.
    pub fn endpoints(&self) -> (r: &Endpoints)
        ensures
            r@ == self.endpoints_view(),
    {
        &self.endpoints
    }

    /// Notes that the bucket listing failed, and says whether this is the first
    /// failure, the one that is reported.
    pub fn note_bucket_list_error(&mut self) -> (first: bool)
        ensures
            first == !old(self).error_logged(),
            final(self).error_logged(),
            final(self).endpoints_view() == old(self).endpoints_view(),
    {
        let first = !self.bucket_list_error_logged;
        self.bucket_list_error_logged = true;
        first
    }
}

/// An endpoint's URL without its schemes.
pub open spec fn host_of(url: Seq<char>) -> Seq<char> {
    without(without(url, "http://"@), "https://"@)
}

/// Where an endpoint's bucket is listed: the bucket's name, which is the first
/// label of the URL's host, and the host of the storage service, which is the
/// rest. `NoBucketFound` for a host without a dot.
pub fn bucket_location(endpoint: &Endpoint) -> (r: Result<(String, String), StorageError>)
    ensures
        match r {
            Ok((bucket_name, host)) => host_of(endpoint.url@).contains('.') && bucket_name@ == host_of(
                endpoint.url@,
            ).subrange(0, first_index(host_of(endpoint.url@), '.')) && host@ == host_of(
                endpoint.url@,
            ).subrange(
                first_index(host_of(endpoint.url@), '.') + 1,
                host_of(endpoint.url@).len() as int,
            ),
            Err(e) => e is NoBucketFound && !host_of(endpoint.url@).contains('.'),
        },
{
    proof {
        reveal_strlit("http://");
        reveal_strlit("https://");
    }
    let plain = remove_all(endpoint.url.as_str(), "http://");
    let endpoint_url = remove_all(plain.as_str(), "https://");
    match split_once(endpoint_url.as_str(), '.') {
        Some((bucket_name, host)) => {
            proof {
                let i = choose|i: int| #[trigger]
                    first_at(endpoint_url@, '.', i) && bucket_name@ == endpoint_url@.subrange(0, i)
                        && host@ == endpoint_url@.subrange(i + 1, endpoint_url@.len() as int);
                lemma_first_index(endpoint_url@, '.', i);
                assert(endpoint_url@[i] == '.');
            }
            Ok((String::from_str(bucket_name), String::from_str(host)))
        },
        None => Err(StorageError::NoBucketFound),
    }
}

} // verus!
