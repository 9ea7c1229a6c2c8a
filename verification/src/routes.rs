//! What the portal answers to requests, as far as it follows from the catalog
//! and the configuration.
use crate::artifacttype::render::{
    artifacts_collect, artifacts_describe, collected, described, renderable_views, BucketObject,
};
use crate::artifacttype::{opt_view, ArtifactType};
use crate::config::{Config, Endpoint};
use crate::geoip::is_best;
use crate::markdown::{markdown, markdown_html};
use crate::ordered_map::{text_entries, OrderedMap, TextEntries};
use crate::pre_release::{first_match_at, is_release, parse_pre_release};
use crate::release_map::{NamedVersion, ReleaseMap};
use crate::storage::{PreReleasePatternEntry, ProductsConfig};
use crate::templates::{
    Template404, Template500, TemplateProducts, TemplateRelease, TemplateReleases,
};
use crate::text::concat3;
use crate::translate::{needs_translation, wants_translation};
use vstd::prelude::*;

verus! {

/// The outcome of a request that is not served.
#[derive(PartialEq, Eq, Structural, Clone, Copy, Debug)]
pub enum Status {
    NotFound,
    InternalServerError,
}

/// The release key that stands for the latest release.
pub const LATEST: &'static str = "latest";

/// Whether a request came to the host that serves release information only.
pub fn is_release_info<T: ArtifactType>(config: &Config<T>, host_domain: &str) -> (r: bool)
    ensures
        r == (config.release_info_view() == Some(host_domain@)),
{
    if let Some(release_info_domain) = config.get_release_info() {
        host_domain.eq(release_info_domain.as_str())
    } else {
        false
    }
}

/// The list of products. The host for release information has none.
pub fn get_root<'a, T: ArtifactType>(
    host_domain: &str,
    config: &Config<T>,
    catalog: &'a ProductsConfig,
) -> (r: Result<TemplateProducts<'a>, Status>)
    ensures
        config.release_info_view() == Some(host_domain@) ==> r matches Err(Status::NotFound),
        config.release_info_view() != Some(host_domain@) ==> (r matches Ok(page) && {
            &&& page.self_name@ == config.self_name_view()
            &&& page.theme_name@ == config.theme_view()
            &&& page.home_url@ == config.home_url_view()
            &&& page.default_endpoint_url@ == config.endpoints_view()[0].url@
            &&& *page.products == catalog.products
        }),
{
    if is_release_info(config, host_domain) {
        Err(Status::NotFound)
    } else {
        Ok(
            TemplateProducts {
                self_name: String::from_str(config.self_name()),
                theme_name: String::from_str(config.theme()),
                home_url: String::from_str(config.home_url()),
                default_endpoint_url: String::from_str(config.default_endpoint_url()),
                products: &catalog.products,
            },
        )
    }
}

/// What a request for a product answers.
pub enum GetProductResponder<'a> {
    /// The name of the latest release, for the host that serves release
    /// information.
    LatestRelease(String),
    /// The list of the product's releases.
    Template(Box<TemplateReleases<'a>>),
}

/// Answers a request for a product: `NotFound` for a product that the catalog
/// does not have. The host for release information gets the name of the latest
/// release, and a server error where the product has no release; every other
/// host gets the list of releases.
pub fn get_product<'a, T: ArtifactType>(
    host_domain: &str,
    config: &Config<T>,
    catalog: &'a ProductsConfig,
    product: &str,
) -> (r: Result<GetProductResponder<'a>, Status>)
    ensures
        !catalog.products.has(product@) ==> r matches Err(Status::NotFound),
        catalog.products.has(product@) && config.release_info_view() == Some(host_domain@) ==> {
            let versions = catalog.products.value_of(product@).versions;
            if versions.has_release(catalog.pre_release_patterns@) {
                r matches Ok(GetProductResponder::LatestRelease(name)) && exists|i: int| #[trigger]
                    versions.latest_at(catalog.pre_release_patterns@, i) && name@ == versions.names()[i]
            } else {
                r matches Err(Status::InternalServerError)
            }
        },
        catalog.products.has(product@) && config.release_info_view() != Some(host_domain@) ==> (r matches Ok(
            GetProductResponder::Template(page),
        ) && {
            &&& page.self_name@ == config.self_name_view()
            &&& page.theme_name@ == config.theme_view()
            &&& page.home_url@ == config.home_url_view()
            &&& page.default_endpoint_url@ == config.endpoints_view()[0].url@
            &&& page.product_key@ == product@
            &&& *page.product == catalog.products.value_of(product@)
            &&& *page.pre_release_patterns == catalog.pre_release_patterns
        }),
{
    if let Some(product_data) = catalog.products.get(product) {
        if is_release_info(config, host_domain) {
            match product_data.versions.latest(&catalog.pre_release_patterns) {
                Some(latest) => Ok(GetProductResponder::LatestRelease(String::from_str(latest.name()))),
                None => Err(Status::InternalServerError),
            }
        } else {
            Ok(
                GetProductResponder::Template(
                    Box::new(
                        TemplateReleases {
                            self_name: String::from_str(config.self_name()),
                            theme_name: String::from_str(config.theme()),
                            home_url: String::from_str(config.home_url()),
                            default_endpoint_url: String::from_str(config.default_endpoint_url()),
                            product_key: String::from_str(product),
                            product: product_data,
                            pre_release_patterns: &catalog.pre_release_patterns,
                        },
                    ),
                ),
            )
        }
    } else {
        Err(Status::NotFound)
    }
}

/// Where the site's icon is found.
pub fn favicon<T: ArtifactType>(config: &Config<T>) -> (r: String)
    ensures
        r@ == "/static/theme/"@ + config.theme_view() + "/favicon.ico"@,
{
    concat3("/static/theme/", config.theme(), "/favicon.ico")
}

/// The page for what was not found.
pub fn not_found<T: ArtifactType>(config: &Config<T>) -> (r: Template404)
    ensures
        r.self_name@ == config.self_name_view(),
        r.theme_name@ == config.theme_view(),
        r.home_url@ == config.home_url_view(),
{
    Template404 {
        self_name: String::from_str(config.self_name()),
        theme_name: String::from_str(config.theme()),
        home_url: String::from_str(config.home_url()),
    }
}

/// The page for a failure of the server.
pub fn internal_server_error<T: ArtifactType>(config: &Config<T>) -> (r: Template500)
    ensures
        r.self_name@ == config.self_name_view(),
        r.theme_name@ == config.theme_view(),
        r.home_url@ == config.home_url_view(),
{
    Template500 {
        self_name: String::from_str(config.self_name()),
        theme_name: String::from_str(config.theme()),
        home_url: String::from_str(config.home_url()),
    }
}

/// The page for any other failure.
pub fn other_error<T: ArtifactType>(config: &Config<T>) -> (r: Template500)
    ensures
        r.self_name@ == config.self_name_view(),
        r.theme_name@ == config.theme_view(),
        r.home_url@ == config.home_url_view(),
{
    Template500 {
        self_name: String::from_str(config.self_name()),
        theme_name: String::from_str(config.theme()),
        home_url: String::from_str(config.home_url()),
    }
}

/// Every value rendered from Markdown to HTML, under its key.
pub open spec fn markdown_entries(entries: TextEntries) -> TextEntries {
    entries.map_values(|e: (Seq<char>, Seq<char>)| (e.0, markdown_html(e.1)))
}

/// Renders every value of a map from Markdown to HTML.
pub fn markdown_values(m: &OrderedMap<String>) -> (r: OrderedMap<String>)
    ensures
        text_entries(r) == markdown_entries(text_entries(*m)),
{
    let n = m.len();
    let mut out: OrderedMap<String> = OrderedMap::new();
    let mut i: usize = 0;
    while i < n
        invariant
            i <= n,
            n == m.keys().len(),
            m.wf(),
            out.wf(),
            out.keys() == m.keys().take(i as int),
            out.values().len() == i,
            forall|k: int| 0 <= k < i ==> (#[trigger] out.values()[k])@ == markdown_html(m.values()[k]@),
        decreases n - i,
    {
        let key = m.key_at(i).clone();
        let value = markdown(m.value_at(i).as_str());
        proof {
            if out.has(key@) {
                let p = out.keys().index_of(key@);
                assert(m.keys()[p] == key@);
            }
        }
        out.insert(key, value);
        proof {
            assert(out.keys() =~= m.keys().take(i + 1));
        }
        i = i + 1;
    }
    proof {
        assert(m.keys().take(n as int) =~= m.keys());
        assert(text_entries(out) =~= markdown_entries(text_entries(*m)));
    }
    out
}

/// The position of the version that a request names: for `latest` that of the
/// latest release, else that of the version with the name. `NotFound` where the
/// map has no version with the name, a server error where `latest` is asked for
/// and there is no release.
pub open spec fn selected_version(
    versions: ReleaseMap,
    patterns: Seq<PreReleasePatternEntry>,
    release: Seq<char>,
) -> Result<int, Status> {
    if release == LATEST@ {
        if versions.has_release(patterns) {
            Ok(choose|i: int| versions.latest_at(patterns, i))
        } else {
            Err(Status::InternalServerError)
        }
    } else if versions.0.has(release) {
        Ok(versions.0.position(release))
    } else {
        Err(Status::NotFound)
    }
}

/// Finds the version that a request names.
pub fn select_version(versions: &ReleaseMap, patterns: &Vec<PreReleasePatternEntry>, release: &str) -> (r:
    Result<usize, Status>)
    ensures
        versions.0.wf(),
        match r {
            Ok(i) => selected_version(*versions, patterns@, release@) == Ok::<int, Status>(i as int)
                && i < versions.names().len(),
            Err(e) => selected_version(*versions, patterns@, release@) == Err::<int, Status>(e),
        },
{
    let n = versions.0.len();
    if release.eq(LATEST) {
        let mut left: usize = n;
        while left > 0
            invariant
                release@ == LATEST@,
                n == versions.names().len(),
                left <= n,
                forall|j: int| left <= j < n ==> !is_release(patterns@, #[trigger] versions.names()[j]),
            decreases left,
        {
            let i = left - 1;
            if parse_pre_release(versions.0.key_at(i).as_str(), patterns).is_none() {
                proof {
                    assert(is_release(patterns@, versions.names()[i as int]));
                    assert(versions.latest_at(patterns@, i as int));
                    let c = choose|c: int| versions.latest_at(patterns@, c);
                    versions.lemma_latest_unique(patterns@, c, i as int);
                }
                return Ok(i);
            }
            left = i;
        }
        Err(Status::InternalServerError)
    } else {
        match versions.0.get_index_of(release) {
            Some(i) => Ok(i),
            None => Err(Status::NotFound),
        }
    }
}

/// Key and display name of every endpoint.
pub open spec fn endpoint_names(endpoints: Seq<Endpoint>) -> Seq<(Seq<char>, Seq<char>)> {
    endpoints.map_values(|e: Endpoint| (e.key@, e.display_name@))
}

/// The view of a list of pairs of strings.
pub open spec fn pair_views(pairs: Seq<(String, String)>) -> Seq<(Seq<char>, Seq<char>)> {
    pairs.map_values(|p: (String, String)| (p.0@, p.1@))
}

/// The label of the first pattern that marks `version` as a pre-release.
pub open spec fn pre_release_label(patterns: Seq<PreReleasePatternEntry>, version: Seq<char>) -> Option<
    Seq<char>,
> {
    if is_release(patterns, version) {
        None
    } else {
        Some(patterns[choose|i: int| first_match_at(patterns, version, i)].display_name@)
    }
}

/// The text of an optional Markdown description as HTML.
pub open spec fn description_html(description: Option<String>) -> Option<Seq<char>> {
    match description {
        Some(text) => Some(markdown_html(text@)),
        None => None,
    }
}

/// Whether `page` is the page of the version at position `i` of a product's
/// releases, for a request that named the release `release`.
pub open spec fn is_release_page<T: ArtifactType>(
    page: TemplateRelease,
    config: &Config<T>,
    catalog: &ProductsConfig,
    product: Seq<char>,
    release: Seq<char>,
    i: int,
    distances: Option<&Vec<Option<u64>>>,
    release_notes: Seq<Option<String>>,
    bucket_list: Option<Vec<BucketObject>>,
) -> bool {
    let product_data = catalog.products.value_of(product);
    let versions = product_data.versions;
    let patterns = catalog.pre_release_patterns@;
    let name = versions.names()[i];
    let info = versions.0.values()[i];
    &&& 0 <= i < versions.names().len()
    &&& page.self_name@ == config.self_name_view()
    &&& page.theme_name@ == config.theme_view()
    &&& page.home_url@ == config.home_url_view()
    &&& page.default_endpoint_url@ == config.endpoints_view()[0].url@
    &&& page.product_key@ == product
    &&& page.release_key@ == release
    &&& page.product_title@ == product_data.name@
    &&& page.product_version@ == name
    &&& opt_view(page.product_version_prev) == if i > 0 {
        Some(versions.names()[i - 1])
    } else {
        None
    }
    &&& opt_view(page.product_version_next) == if i + 1 < versions.names().len() {
        Some(versions.names()[i + 1])
    } else {
        None
    }
    &&& page.release_date@ == info.date@
    &&& opt_view(page.product_icon) == opt_view(product_data.icon_path)
    &&& opt_view(page.description) == description_html(info.description)
    &&& text_entries(page.extra_description) == markdown_entries(
        described(
            product_data.settings@,
            name,
            info,
            &config.artifact_types_view(),
            release_notes,
            config.artifact_types_view().0.keys().len() as int,
        ),
    )
    &&& opt_view(page.pre_release) == pre_release_label(patterns, name)
    &&& renderable_views(page.artifacts@) == collected(
        product,
        product_data.settings@,
        name,
        info.downloads,
        &config.artifact_types_view(),
        config.endpoints_view(),
        bucket_list,
        info.downloads.keys().len() as int,
    )
    &&& pair_views(page.endpoints@) == endpoint_names(config.endpoints_view())
    &&& exists|k: int| #[trigger]
        is_best(distances, config.endpoints_view().len(), k) && 0 <= k < config.endpoints_view().len()
            && page.auto_endpoint@ == config.endpoints_view()[k].key@
    &&& page.translate_note_text_en is None
    &&& page.translate_note_text is None
}

/// What a request for a release is answered with: `NotFound` on the host for
/// release information and for a product that the catalog does not have, else
/// what the choice of the version gives.
pub open spec fn release_outcome<T: ArtifactType>(
    host_domain: Seq<char>,
    config: &Config<T>,
    catalog: &ProductsConfig,
    product: Seq<char>,
    release: Seq<char>,
) -> Result<int, Status> {
    if config.release_info_view() == Some(host_domain) || !catalog.products.has(product) {
        Err(Status::NotFound)
    } else {
        selected_version(
            catalog.products.value_of(product).versions,
            catalog.pre_release_patterns@,
            release,
        )
    }
}

/// The page of one release of a product.
///
/// `release_notes` holds, for each artifact type in the order of registration,
/// the notes of the release that it asked for; `distances` each endpoint's
/// distance from the client; `bucket_list` the endpoints' file listing. The host
/// for release information has no such page. `NotFound` comes back for a product
/// or a release that the catalog does not have, a server error where `latest` is
/// asked for and the product has no release.
pub fn do_get_release<T: ArtifactType>(
    host_domain: &str,
    config: &Config<T>,
    catalog: &ProductsConfig,
    product: &str,
    release: &str,
    distances: Option<&Vec<Option<u64>>>,
    release_notes: &Vec<Option<String>>,
    bucket_list: Option<Vec<BucketObject>>,
) -> (r: Result<TemplateRelease, Status>)
    ensures
        match release_outcome(host_domain@, config, catalog, product@, release@) {
            Err(e) => r == Err::<TemplateRelease, Status>(e),
            Ok(i) => r matches Ok(page) && is_release_page(
                page,
                config,
                catalog,
                product@,
                release@,
                i,
                distances,
                release_notes@,
                bucket_list,
            ),
        },
{
    if is_release_info(config, host_domain) {
        return Err(Status::NotFound);
    }
    let product_data = match catalog.products.get(product) {
        Some(product_data) => product_data,
        None => {
            return Err(Status::NotFound);
        },
    };
    let patterns = &catalog.pre_release_patterns;
    let versions = &product_data.versions;
    let index = match select_version(versions, patterns, release) {
        Ok(index) => index,
        Err(e) => {
            return Err(e);
        },
    };
    let names = versions.map();
    let named_version = NamedVersion { name: names.key_at(index).as_str(), info: names.value_at(index) };
    let product_version_prev = if index > 0 {
        Some(names.key_at(index - 1).clone())
    } else {
        None
    };
    let count = names.len();
    let product_version_next = if index < count - 1 {
        Some(names.key_at(index + 1).clone())
    } else {
        None
    };
    let description = match &named_version.info().description {
        Some(text) => Some(markdown(text.as_str())),
        None => None,
    };
    let described_raw = artifacts_describe(
        &product_data.settings,
        &named_version,
        config.artifact_types(),
        release_notes,
    );
    let extra_description = markdown_values(&described_raw);
    let pre_release = match parse_pre_release(named_version.name(), patterns) {
        Some(label) => {
            proof {
                let found = choose|i: int| #[trigger]
                    first_match_at(patterns@, named_version.name@, i) && label@
                        == patterns@[i].display_name@;
                let chosen = choose|i: int| first_match_at(patterns@, named_version.name@, i);
                assert(found == chosen) by {
                    if found < chosen {
                        assert(!crate::pre_release::entry_matches(patterns@[found], named_version.name@));
                    }
                    if chosen < found {
                        assert(!crate::pre_release::entry_matches(patterns@[chosen], named_version.name@));
                    }
                }
            }
            Some(String::from_str(label))
        },
        None => None,
    };
    let artifacts = artifacts_collect(
        product,
        &product_data.settings,
        &named_version,
        config.artifact_types(),
        config.endpoints(),
        bucket_list,
    );
    let all = config.endpoints().get_all();
    let mut endpoints: Vec<(String, String)> = Vec::new();
    let mut i: usize = 0;
    while i < all.len()
        invariant
            i <= all.len(),
            endpoints@.len() == i,
            forall|k: int|
                0 <= k < i ==> (#[trigger] endpoints@[k]).0@ == all@[k].key@ && endpoints@[k].1@
                    == all@[k].display_name@,
        decreases all.len() - i,
    {
        endpoints.push((all[i].key.clone(), all[i].display_name.clone()));
        i = i + 1;
    }
    proof {
        assert(pair_views(endpoints@) =~= endpoint_names(all@));
    }
    let auto_endpoint = config.find_best_location(distances).key.clone();
    Ok(
        TemplateRelease {
            self_name: String::from_str(config.self_name()),
            theme_name: String::from_str(config.theme()),
            home_url: String::from_str(config.home_url()),
            default_endpoint_url: String::from_str(config.default_endpoint_url()),
            product_key: String::from_str(product),
            release_key: String::from_str(release),
            product_title: product_data.name.clone(),
            product_version: String::from_str(named_version.name()),
            product_version_prev,
            product_version_next,
            release_date: named_version.info().date.clone(),
            product_icon: match &product_data.icon_path {
                Some(icon) => Some(icon.clone()),
                None => None,
            },
            description,
            extra_description,
            pre_release,
            artifacts,
            endpoints,
            auto_endpoint,
            translate_note_text_en: None,
            translate_note_text: None,
        },
    )
}

/// A body that is passed on from elsewhere, with the headers to send with it.
pub struct BodyAndHeaders {
    pub body: Vec<u8>,
    pub headers: Vec<(String, String)>,
}

/// Which of the banner's two files is asked for.
#[derive(PartialEq, Eq, Structural, Clone, Copy, Debug)]
pub enum BannerFile {
    /// The file that holds the banner's target URL.
    Url,
    /// The banner's image.
    Png,
}

/// Where a file of the banner is fetched from: `NotFound` where the banner is
/// switched off, the catalog could not be had or it names no banner.
pub open spec fn banner_source(provide: bool, catalog: Option<&ProductsConfig>, file: BannerFile) -> Result<
    Seq<char>,
    Status,
> {
    if provide && catalog is Some && catalog->0.banner is Some {
        match file {
            BannerFile::Url => Ok(catalog->0.banner->0.url_file@),
            BannerFile::Png => Ok(catalog->0.banner->0.image_file@),
        }
    } else {
        Err(Status::NotFound)
    }
}

fn banner_file<T: ArtifactType>(config: &Config<T>, catalog: Option<&ProductsConfig>, file: BannerFile) -> (r:
    Result<String, Status>)
    ensures
        match r {
            Ok(url) => banner_source(config.banner_view(), catalog, file) == Ok::<Seq<char>, Status>(url@),
            Err(e) => banner_source(config.banner_view(), catalog, file) == Err::<Seq<char>, Status>(e),
        },
{
    if config.provide_banner() {
        if let Some(catalog) = catalog {
            if let Some(banner) = &catalog.banner {
                return Ok(
                    match file {
                        BannerFile::Url => banner.url_file.clone(),
                        BannerFile::Png => banner.image_file.clone(),
                    },
                );
            }
        }
    }
    Err(Status::NotFound)
}

/// The URL from which the banner's target URL is relayed.
pub fn get_banner<T: ArtifactType>(config: &Config<T>, catalog: Option<&ProductsConfig>) -> (r: Result<
    String,
    Status,
>)
    ensures
        match r {
            Ok(url) => banner_source(config.banner_view(), catalog, BannerFile::Url) == Ok::<
                Seq<char>,
                Status,
            >(url@),
            Err(e) => banner_source(config.banner_view(), catalog, BannerFile::Url) == Err::<
                Seq<char>,
                Status,
            >(e),
        },
{
    banner_file(config, catalog, BannerFile::Url)
}

/// The URL from which the banner's image is relayed.
pub fn get_banner_png<T: ArtifactType>(config: &Config<T>, catalog: Option<&ProductsConfig>) -> (r:
    Result<String, Status>)
    ensures
        match r {
            Ok(url) => banner_source(config.banner_view(), catalog, BannerFile::Png) == Ok::<
                Seq<char>,
                Status,
            >(url@),
            Err(e) => banner_source(config.banner_view(), catalog, BannerFile::Png) == Err::<
                Seq<char>,
                Status,
            >(e),
        },
{
    banner_file(config, catalog, BannerFile::Png)
}

/// What is relayed for a banner file that was fetched: the body, and the content
/// type where the origin named one that could be read.
pub fn relayed_response(body: Vec<u8>, content_type: Option<String>) -> (r: BodyAndHeaders)
    ensures
        r.body@ == body@,
        match content_type {
            Some(value) => r.headers@.len() == 1 && r.headers@[0].0@ == "Content-Type"@
                && r.headers@[0].1@ == value@,
            None => r.headers@.len() == 0,
        },
{
    let mut headers: Vec<(String, String)> = Vec::new();
    if let Some(value) = content_type {
        headers.push((String::from_str("Content-Type"), value));
    }
    BodyAndHeaders { body, headers }
}

/// What a request for a release answers: the page, and the language into which
/// the page's descriptions are to be translated, if any.
pub struct ReleaseAnswer {
    pub page: TemplateRelease,
    pub translate_to: Option<String>,
}

/// The page of a release in English, whatever language the reader asks for.
pub fn get_release_en<T: ArtifactType>(
    host_domain: &str,
    config: &Config<T>,
    catalog: &ProductsConfig,
    product: &str,
    release: &str,
    distances: Option<&Vec<Option<u64>>>,
    release_notes: &Vec<Option<String>>,
    bucket_list: Option<Vec<BucketObject>>,
) -> (r: Result<ReleaseAnswer, Status>)
    ensures
        match release_outcome(host_domain@, config, catalog, product@, release@) {
            Err(e) => r matches Err(f) && f == e,
            Ok(i) => r matches Ok(answer) && answer.translate_to is None && is_release_page(
                answer.page,
                config,
                catalog,
                product@,
                release@,
                i,
                distances,
                release_notes@,
                bucket_list,
            ),
        },
{
    match do_get_release(
        host_domain,
        config,
        catalog,
        product,
        release,
        distances,
        release_notes,
        bucket_list,
    ) {
        Ok(page) => Ok(ReleaseAnswer { page, translate_to: None }),
        Err(e) => Err(e),
    }
}

/// The page of a release for a reader who asks for the language
/// `accept_language`: the page as `do_get_release` gives it, to be translated
/// into that language unless it is English.
pub fn get_release<T: ArtifactType>(
    host_domain: &str,
    accept_language: Option<&str>,
    config: &Config<T>,
    catalog: &ProductsConfig,
    product: &str,
    release: &str,
    distances: Option<&Vec<Option<u64>>>,
    release_notes: &Vec<Option<String>>,
    bucket_list: Option<Vec<BucketObject>>,
) -> (r: Result<ReleaseAnswer, Status>)
    ensures
        match release_outcome(host_domain@, config, catalog, product@, release@) {
            Err(e) => r matches Err(f) && f == e,
            Ok(i) => r matches Ok(answer) && is_release_page(
                answer.page,
                config,
                catalog,
                product@,
                release@,
                i,
                distances,
                release_notes@,
                bucket_list,
            ) && opt_view(answer.translate_to) == match accept_language {
                Some(lang) if wants_translation(lang@) => Some(lang@),
                _ => None,
            },
        },
{
    match do_get_release(
        host_domain,
        config,
        catalog,
        product,
        release,
        distances,
        release_notes,
        bucket_list,
    ) {
        Ok(page) => {
            let translate_to = match accept_language {
                Some(lang) => if needs_translation(lang) {
                    Some(String::from_str(lang))
                } else {
                    None
                },
                None => None,
            };
            Ok(ReleaseAnswer { page, translate_to })
        },
        Err(e) => Err(e),
    }
}

} // verus!
