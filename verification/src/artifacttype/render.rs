//! Artifacts as the pages show them.
use crate::artifacttype::{
    artifact_info_for, get_artifact_info, opt_view, ArtifactDisplayTitle, ArtifactDisplayTitleView,
    ArtifactError, ArtifactInfo, ArtifactInfoView, ArtifactPathView, ArtifactType, ArtifactTypes,
};
use crate::artifacttype::{request_view, ReleaseRequest};
use crate::ordered_map::{text_entries, text_insert_all, OrderedMap, TextEntries};
use crate::release_map::NamedVersion;
use crate::settings::SettingValue;
use crate::storage::{DownloadSpec, VersionInfo};
use vstd::hash_map::StringHashMap;
use crate::config::{Endpoint, Endpoints};
use crate::sorted_map::{insert_spec, Entries, SortedMap};
use crate::text::concat3;
use std::fmt::Write;
use vstd::prelude::*;

verus! {

/// How the date of a file's last change is shown.
pub const MODIFIED_DATE_FORMAT: &'static str = "%Y-%m-%d %H:%M";

/// One object of a bucket listing.
pub struct BucketObject {
    pub key: String,
    pub last_modified: String,
    pub size: u64,
}

/// The RFC 3339 date `date` written in the `strftime` format `format`; `None`
/// where `date` is no such date or `format` no such format.
pub uninterp spec fn rfc3339_formatted(date: Seq<char>, format: Seq<char>) -> Option<Seq<char>>;

/// A number of bytes in words, such as `1.5 kB`.
pub uninterp spec fn filesize_text(size: u64) -> Option<Seq<char>>;

/// `chrono::DateTime::parse_from_rfc3339` followed by `DateTime::format`: reads
/// `date` and writes it in `format`. What comes back depends on the two strings
/// alone.
#[verifier::external_body]
pub(crate) fn format_rfc3339(date: &str, format: &str) -> (r: Option<String>)
    ensures
        opt_view(r) == rfc3339_formatted(date@, format@),
{
    match chrono::DateTime::parse_from_rfc3339(date) {
        Ok(parsed) => {
            let mut out = String::new();
            match write!(out, "{}", parsed.format(format)) {
                Ok(_) => Some(out),
                Err(_) => None,
            }
        },
        Err(_) => None,
    }
}

/// `askama::filters::filesizeformat`: a number of bytes in words. What comes
/// back depends on the number alone.
#[verifier::external_body]
pub(crate) fn format_filesize(size: u64) -> (r: Option<String>)
    ensures
        opt_view(r) == filesize_text(size),
{
    askama::filters::filesizeformat(&size).ok()
}

/// The date of last change and the size of the first listed object with the key
/// `file_path`.
pub open spec fn file_metadata(bucket_list: Option<Vec<BucketObject>>, file_path: Seq<char>) -> Option<
    (Seq<char>, u64),
> {
    match bucket_list {
        Some(objects) => {
            if exists|i: int| metadata_at(objects@, file_path, i) {
                let i = choose|i: int| metadata_at(objects@, file_path, i);
                Some((objects@[i].last_modified@, objects@[i].size))
            } else {
                None
            }
        },
        None => None,
    }
}

/// Whether `i` is the first object with the key `file_path`.
pub open spec fn metadata_at(objects: Seq<BucketObject>, file_path: Seq<char>, i: int) -> bool {
    &&& 0 <= i < objects.len()
    &&& objects[i].key@ == file_path
    &&& forall|j: int| 0 <= j < i ==> (#[trigger] objects[j]).key@ != file_path
}

/// Looks a file up in the bucket listing, if there is one.
pub fn get_file_metadata<'a>(bucket_list: &'a Option<Vec<BucketObject>>, file_path: &str) -> (r:
    Option<(&'a str, u64)>)
    ensures
        match r {
            Some((date, size)) => file_metadata(*bucket_list, file_path@) == Some((date@, size)),
            None => file_metadata(*bucket_list, file_path@) is None,
        },
{
    if let Some(objects) = bucket_list {
        let mut i: usize = 0;
        while i < objects.len()
            invariant
                *bucket_list == Some(*objects),
                i <= objects.len(),
                forall|j: int| 0 <= j < i ==> (#[trigger] objects@[j]).key@ != file_path@,
            decreases objects.len() - i,
        {
            if objects[i].key.as_str().eq(file_path) {
                proof {
                    assert(metadata_at(objects@, file_path@, i as int));
                    let c = choose|c: int| metadata_at(objects@, file_path@, c);
                    assert(c == i) by {
                        if c < i {
                            assert(objects@[c].key@ != file_path@);
                        } else if c > i {
                            assert(objects@[i as int].key@ == file_path@);
                        }
                    }
                }
                let date = objects[i].last_modified.as_str();
                let size = objects[i].size;
                assert(file_metadata(*bucket_list, file_path@) == Some((date@, size)));
                return Some((date, size));
            }
            i = i + 1;
        }
    }
    None
}

/// An artifact as a page shows it.
pub struct RenderableArtifact {
    pub icon_path: Option<String>,
    pub display_name: ArtifactDisplayTitle,
    pub modified_date: Option<String>,
    pub file_size: Option<String>,
    /// The artifact's URL on each endpoint, by the endpoint's display name.
    pub urls: SortedMap,
    pub extra_info_markdown: Option<String>,
}

/// A `RenderableArtifact` as plain text.
pub struct RenderableArtifactView {
    pub icon_path: Option<Seq<char>>,
    pub display_name: ArtifactDisplayTitleView,
    pub modified_date: Option<Seq<char>>,
    pub file_size: Option<Seq<char>>,
    pub urls: Entries,
    pub extra_info_markdown: Option<Seq<char>>,
}

impl View for RenderableArtifact {
    type V = RenderableArtifactView;

    open spec fn view(&self) -> RenderableArtifactView {
        RenderableArtifactView {
            icon_path: opt_view(self.icon_path),
            display_name: self.display_name@,
            modified_date: opt_view(self.modified_date),
            file_size: opt_view(self.file_size),
            urls: self.urls@,
            extra_info_markdown: opt_view(self.extra_info_markdown),
        }
    }
}

impl RenderableArtifact {
    /// The main title.
    pub fn display_title(&self) -> (r: &str)
        ensures
            r@ == self@.display_name.title(),
    {
        self.display_name.title()
    }

    /// The line below the title.
    pub fn display_subtitle(&self) -> (r: &str)
        ensures
            r@ == self@.display_name.subtitle(),
    {
        self.display_name.subtitle()
    }
}

impl ArtifactInfoView {
    /// The artifact's URL on `endpoint`; `None` for an artifact without download.
    pub open spec fn url_on(self, product_name: Seq<char>, version_name: Seq<char>, endpoint: Endpoint) -> Option<
        Seq<char>,
    > {
        match self.path {
            ArtifactPathView::File(_) => Some(
                endpoint.url@ + "/"@ + self.file_path(product_name, version_name)->0,
            ),
            ArtifactPathView::RemoteUrl(remote_url) => Some(remote_url),
            ArtifactPathView::Empty => None,
        }
    }

    /// The artifact's URLs on the first `n` endpoints, by display name. Of two
    /// endpoints with one display name the later one counts.
    pub open spec fn urls_upto(
        self,
        product_name: Seq<char>,
        version_name: Seq<char>,
        endpoints: Seq<Endpoint>,
        n: int,
    ) -> Entries
        decreases n,
    {
        if n <= 0 {
            Seq::empty()
        } else {
            let before = self.urls_upto(product_name, version_name, endpoints, n - 1);
            match self.url_on(product_name, version_name, endpoints[n - 1]) {
                Some(url) => insert_spec(before, endpoints[n - 1].display_name@, url),
                None => before,
            }
        }
    }

    /// The artifact's URLs on all endpoints, by display name.
    pub open spec fn urls(self, product_name: Seq<char>, version_name: Seq<char>, endpoints: Seq<Endpoint>) -> Entries {
        self.urls_upto(product_name, version_name, endpoints, endpoints.len() as int)
    }
}

impl ArtifactInfo {
    /// The artifact's URL on every endpoint, by the endpoint's display name: below
    /// the endpoint's URL for a file, the remote URL otherwise.
    pub fn urls(&self, product_name: &str, version_name: &str, endpoints: &Endpoints) -> (r: SortedMap)
        ensures
            r@ == self@.urls(product_name@, version_name@, endpoints@),
    {
        let all = endpoints.get_all();
        let file_path = self.file_path(product_name, version_name);
        let mut out = SortedMap::new();
        let mut i: usize = 0;
        while i < all.len()
            invariant
                i <= all.len(),
                all@ == endpoints@,
                opt_view(file_path) == self@.file_path(product_name@, version_name@),
                out@ == self@.urls_upto(product_name@, version_name@, endpoints@, i as int),
            decreases all.len() - i,
        {
            let e = &all[i];
            match self.remote_url() {
                Some(remote_url) => {
                    out.insert(e.display_name.clone(), String::from_str(remote_url));
                },
                None => {
                    if let Some(path) = &file_path {
                        out.insert(e.display_name.clone(), concat3(e.url.as_str(), "/", path.as_str()));
                    }
                },
            }
            i = i + 1;
        }
        out
    }
}

/// The setting of the artifact type `key`, if the product has one.
pub open spec fn setting_of<'a>(settings: &'a Map<Seq<char>, SettingValue>, key: Seq<char>) -> Option<
    &'a SettingValue,
> {
    if settings.contains_key(key) {
        Some(&settings[key])
    } else {
        None
    }
}

/// The date of last change as the page shows it.
pub open spec fn shown_date(metadata: Option<(Seq<char>, u64)>) -> Option<Seq<char>> {
    match metadata {
        Some((date, _)) => rfc3339_formatted(date, MODIFIED_DATE_FORMAT@),
        None => None,
    }
}

/// The file's size as the page shows it.
pub open spec fn shown_size(metadata: Option<(Seq<char>, u64)>) -> Option<Seq<char>> {
    match metadata {
        Some((_, size)) => filesize_text(size),
        None => None,
    }
}

/// How a resolved artifact of a released version is shown: with its URL on every
/// endpoint and, for a file that the bucket listing knows, its date and size.
pub open spec fn rendered(
    info: ArtifactInfoView,
    product_name: Seq<char>,
    version_name: Seq<char>,
    endpoints: Seq<Endpoint>,
    bucket_list: Option<Vec<BucketObject>>,
) -> RenderableArtifactView {
    let metadata = match info.file_path(product_name, version_name) {
        Some(path) => file_metadata(bucket_list, path),
        None => None,
    };
    RenderableArtifactView {
        icon_path: info.icon,
        display_name: info.display_name,
        modified_date: shown_date(metadata),
        file_size: shown_size(metadata),
        urls: info.urls(product_name, version_name, endpoints),
        extra_info_markdown: info.extra_info_markdown,
    }
}

/// The artifacts among the first `n` downloads of a version that resolve, in the
/// order of the downloads. A download that does not resolve is left out.
pub open spec fn collected<T: ArtifactType>(
    product_name: Seq<char>,
    settings: Map<Seq<char>, SettingValue>,
    version_name: Seq<char>,
    downloads: OrderedMap<DownloadSpec>,
    ats: &ArtifactTypes<T>,
    endpoints: Seq<Endpoint>,
    bucket_list: Option<Vec<BucketObject>>,
    n: int,
) -> Seq<RenderableArtifactView>
    decreases n,
{
    if n <= 0 {
        Seq::empty()
    } else {
        let before = collected(
            product_name,
            settings,
            version_name,
            downloads,
            ats,
            endpoints,
            bucket_list,
            n - 1,
        );
        let key = downloads.keys()[n - 1];
        match artifact_info_for(
            ats,
            key,
            product_name,
            version_name,
            downloads.values()[n - 1],
            setting_of(&settings, key),
        ) {
            Ok(info) => before.push(
                rendered(info, product_name, version_name, endpoints, bucket_list),
            ),
            Err(_) => before,
        }
    }
}

/// The views of a list of artifacts.
pub open spec fn renderable_views(artifacts: Seq<RenderableArtifact>) -> Seq<RenderableArtifactView> {
    artifacts.map_values(|a: RenderableArtifact| a@)
}

/// Shows one resolved artifact of a released version.
pub fn render_artifact(
    artifact_info: &ArtifactInfo,
    product_name: &str,
    version_name: &str,
    endpoints: &Endpoints,
    bucket_list: &Option<Vec<BucketObject>>,
) -> (r: RenderableArtifact)
    ensures
        r@ == rendered(artifact_info@, product_name@, version_name@, endpoints@, *bucket_list),
{
    let mut modified_date: Option<String> = None;
    let mut file_size: Option<String> = None;
    if let Some(file_path) = artifact_info.file_path(product_name, version_name) {
        if let Some((out_modified_date, out_file_size)) = get_file_metadata(
            bucket_list,
            file_path.as_str(),
        ) {
            modified_date = format_rfc3339(out_modified_date, MODIFIED_DATE_FORMAT);
            file_size = format_filesize(out_file_size);
        }
    }
    RenderableArtifact {
        icon_path: match artifact_info.icon() {
            Some(icon) => Some(icon.clone()),
            None => None,
        },
        display_name: artifact_info.display_name().clone_owned(),
        modified_date,
        file_size,
        urls: artifact_info.urls(product_name, version_name, endpoints),
        extra_info_markdown: match artifact_info.extra_info_markdown() {
            Some(text) => Some(text.clone()),
            None => None,
        },
    }
}

/// Resolves every download of a version and shows those that resolve. One
/// download's failure does not touch the others.
pub fn artifacts_collect<T: ArtifactType>(
    product_name: &str,
    settings: &StringHashMap<SettingValue>,
    version: &NamedVersion,
    ats: &ArtifactTypes<T>,
    endpoints: &Endpoints,
    bucket_list: Option<Vec<BucketObject>>,
) -> (r: Vec<RenderableArtifact>)
    ensures
        renderable_views(r@) == collected(
            product_name@,
            settings@,
            version.name@,
            version.info.downloads,
            ats,
            endpoints@,
            bucket_list,
            version.info.downloads.keys().len() as int,
        ),
{
    let downloads = &version.info().downloads;
    let n = downloads.len();
    let mut renderables: Vec<RenderableArtifact> = Vec::new();
    let mut i: usize = 0;
    while i < n
        invariant
            i <= n,
            n == downloads.keys().len(),
            downloads.wf(),
            *downloads == version.info.downloads,
            renderable_views(renderables@) == collected(
                product_name@,
                settings@,
                version.name@,
                *downloads,
                ats,
                endpoints@,
                bucket_list,
                i as int,
            ),
        decreases n - i,
    {
        let key = downloads.key_at(i).as_str();
        let download = downloads.value_at(i);
        let ghost before = renderable_views(renderables@);
        match get_artifact_info(
            ats,
            key,
            product_name,
            version.name(),
            download,
            settings.get(key),
        ) {
            Ok(artifact_info) => {
                let shown = render_artifact(
                    &artifact_info,
                    product_name,
                    version.name(),
                    endpoints,
                    &bucket_list,
                );
                renderables.push(shown);
                assert(renderable_views(renderables@) =~= before.push(shown@));
            },
            Err(_) => {},
        }
        i = i + 1;
    }
    renderables
}

/// The views of a list of failures.
pub open spec fn failure_views(failures: Seq<(String, ArtifactError)>) -> Seq<(Seq<char>, ArtifactError)> {
    failures.map_values(|f: (String, ArtifactError)| (f.0@, f.1))
}

/// The downloads among the first `n` of a version that do not resolve, in the
/// order of the downloads, each with the reason.
pub open spec fn failed<T: ArtifactType>(
    product_name: Seq<char>,
    settings: Map<Seq<char>, SettingValue>,
    version_name: Seq<char>,
    downloads: OrderedMap<DownloadSpec>,
    ats: &ArtifactTypes<T>,
    n: int,
) -> Seq<(Seq<char>, ArtifactError)>
    decreases n,
{
    if n <= 0 {
        Seq::empty()
    } else {
        let before = failed(product_name, settings, version_name, downloads, ats, n - 1);
        let key = downloads.keys()[n - 1];
        match artifact_info_for(
            ats,
            key,
            product_name,
            version_name,
            downloads.values()[n - 1],
            setting_of(&settings, key),
        ) {
            Ok(_) => before,
            Err(e) => before.push((key, e)),
        }
    }
}

/// Every download of a version is either shown or reported as failed: none is
/// lost, and none is both.
pub proof fn lemma_shown_or_failed<T: ArtifactType>(
    product_name: Seq<char>,
    settings: Map<Seq<char>, SettingValue>,
    version_name: Seq<char>,
    downloads: OrderedMap<DownloadSpec>,
    ats: &ArtifactTypes<T>,
    endpoints: Seq<Endpoint>,
    bucket_list: Option<Vec<BucketObject>>,
    n: int,
)
    requires
        0 <= n,
    ensures
        collected(product_name, settings, version_name, downloads, ats, endpoints, bucket_list, n).len()
            + failed(product_name, settings, version_name, downloads, ats, n).len() == n,
    decreases n,
{
    if n > 0 {
        lemma_shown_or_failed(
            product_name,
            settings,
            version_name,
            downloads,
            ats,
            endpoints,
            bucket_list,
            n - 1,
        );
    }
}

/// The downloads of a version that `artifacts_collect` leaves out, each with the
/// reason why it did not resolve, for the caller to report.
pub fn artifacts_failures<T: ArtifactType>(
    product_name: &str,
    settings: &StringHashMap<SettingValue>,
    version: &NamedVersion,
    ats: &ArtifactTypes<T>,
) -> (r: Vec<(String, ArtifactError)>)
    ensures
        failure_views(r@) == failed(
            product_name@,
            settings@,
            version.name@,
            version.info.downloads,
            ats,
            version.info.downloads.keys().len() as int,
        ),
{
    let downloads = &version.info().downloads;
    let n = downloads.len();
    let mut failures: Vec<(String, ArtifactError)> = Vec::new();
    let mut i: usize = 0;
    while i < n
        invariant
            i <= n,
            n == downloads.keys().len(),
            downloads.wf(),
            *downloads == version.info.downloads,
            failure_views(failures@) == failed(
                product_name@,
                settings@,
                version.name@,
                *downloads,
                ats,
                i as int,
            ),
        decreases n - i,
    {
        let key = downloads.key_at(i);
        let download = downloads.value_at(i);
        let ghost before = failure_views(failures@);
        match get_artifact_info(
            ats,
            key.as_str(),
            product_name,
            version.name(),
            download,
            settings.get(key.as_str()),
        ) {
            Ok(_) => {},
            Err(err) => {
                failures.push((key.clone(), err));
                assert(failure_views(failures@) =~= before.push((key@, err)));
            },
        }
        i = i + 1;
    }
    failures
}

/// The notes for the artifact type at position `i`; `None` past the end of the
/// list.
pub open spec fn notes_at(release_notes: Seq<Option<String>>, i: int) -> Option<Seq<char>> {
    if 0 <= i < release_notes.len() {
        opt_view(release_notes[i])
    } else {
        None
    }
}

/// What the first `n` artifact types of the registry say about a version, in
/// the order of registration. `release_notes` holds, for each artifact type, the
/// notes of the release that it asked for, or `None`.
pub open spec fn described<T: ArtifactType>(
    settings: Map<Seq<char>, SettingValue>,
    version_name: Seq<char>,
    version_info: VersionInfo,
    ats: &ArtifactTypes<T>,
    release_notes: Seq<Option<String>>,
    n: int,
) -> TextEntries
    decreases n,
{
    if n <= 0 {
        Seq::empty()
    } else {
        text_insert_all(
            described(settings, version_name, version_info, ats, release_notes, n - 1),
            ats.0.values()[n - 1].description(
                setting_of(&settings, ats.0.keys()[n - 1]),
                version_name,
                version_info,
                notes_at(release_notes, n - 1),
            ),
        )
    }
}

/// The releases whose notes the artifact types want for a version: one entry for
/// each artifact type, in the order of registration.
pub fn artifacts_describe_requests<T: ArtifactType>(
    settings: &StringHashMap<SettingValue>,
    version: &NamedVersion,
    ats: &ArtifactTypes<T>,
) -> (r: Vec<Option<ReleaseRequest>>)
    ensures
        r@.len() == ats.0.keys().len(),
        forall|i: int|
            0 <= i < r@.len() ==> request_view(#[trigger] r@[i]) == ats.0.values()[i].release_wanted(
                setting_of(&settings@, ats.0.keys()[i]),
                version.name@,
                *version.info,
            ),
{
    let n = ats.0.len();
    let mut out: Vec<Option<ReleaseRequest>> = Vec::new();
    let mut i: usize = 0;
    while i < n
        invariant
            i <= n,
            n == ats.0.keys().len(),
            ats.0.wf(),
            out@.len() == i,
            forall|k: int|
                0 <= k < i ==> request_view(#[trigger] out@[k]) == ats.0.values()[k].release_wanted(
                    setting_of(&settings@, ats.0.keys()[k]),
                    version.name@,
                    *version.info,
                ),
        decreases n - i,
    {
        let key = ats.0.key_at(i).as_str();
        let at = ats.0.value_at(i);
        out.push(at.describe_request(settings.get(key), version));
        i = i + 1;
    }
    out
}

/// Collects what the artifact types say about a version. `release_notes` holds,
/// for each artifact type in the order of registration, the notes of the release
/// that it asked for, or `None` where it asked for none or they could not be had;
/// a list that is too short counts as `None` for the rest.
pub fn artifacts_describe<T: ArtifactType>(
    settings: &StringHashMap<SettingValue>,
    version: &NamedVersion,
    ats: &ArtifactTypes<T>,
    release_notes: &Vec<Option<String>>,
) -> (r: OrderedMap<String>)
    ensures
        text_entries(r) == described(
            settings@,
            version.name@,
            *version.info,
            ats,
            release_notes@,
            ats.0.keys().len() as int,
        ),
{
    let n = ats.0.len();
    let mut out: OrderedMap<String> = OrderedMap::new();
    assert(text_entries(out) =~= Seq::empty());
    let mut i: usize = 0;
    while i < n
        invariant
            i <= n,
            n == ats.0.keys().len(),
            ats.0.wf(),
            text_entries(out) == described(
                settings@,
                version.name@,
                *version.info,
                ats,
                release_notes@,
                i as int,
            ),
        decreases n - i,
    {
        let key = ats.0.key_at(i).as_str();
        let at = ats.0.value_at(i);
        let notes: Option<&str> = if i < release_notes.len() {
            match &release_notes[i] {
                Some(text) => Some(text.as_str()),
                None => None,
            }
        } else {
            None
        };
        at.describe(&mut out, settings.get(key), version, notes);
        i = i + 1;
    }
    out
}

} // verus!
