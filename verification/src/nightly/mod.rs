//! Nightly builds: rolling artifacts taken from the latest successful CI run.
pub mod github_cache;

use crate::artifacttype::render::{
    failure_views, renderable_views, setting_of, RenderableArtifact, RenderableArtifactView,
};
use crate::artifacttype::{
    artifact_nightly_download_for, artifact_nightly_info_for, get_artifact_nightly_download,
    get_artifact_nightly_info, ArtifactError, ArtifactInfoView, ArtifactType,
    ArtifactTypes, NightlyArtifactResponder, NightlyArtifactResponderView,
};
use crate::config::Config;
use crate::markdown::{markdown, markdown_html};
use crate::routes::Status;
use crate::settings::SettingValue;
use crate::sorted_map::SortedMap;
use crate::storage::Product;
use crate::templates::{DownloadGridTemplate, TemplateNightly};
use crate::text::{concat3, first_line, first_line_of, i64_to_string, signed_decimal};
use vstd::hash_map::StringHashMap;
use vstd::string::*;
use crate::nightly::github_cache::{
    is_cached, store_cached_artifact_run, NightlyStore, NightlyStoreView,
};
use crate::ordered_map::OrderedMap;
use crate::storage::DownloadSpec;
use vstd::prelude::*;

verus! {

/// The CI workflow whose runs produce a product's nightly builds.
pub struct NightlyGitHubConfig {
    pub org: String,
    pub repo: String,
    pub workflow: String,
    pub branch: String,
}

/// A product's nightly builds: where they are built and which artifacts exist.
pub struct NightlyConfig {
    pub github: NightlyGitHubConfig,
    pub downloads: OrderedMap<DownloadSpec>,
}

/// What the CI service answered.
pub enum CiAnswer<T> {
    /// It has what was asked for.
    Found(T),
    /// It has no such run or artifact.
    Missing,
    /// The request failed.
    Failed,
}

/// How a request for a nightly artifact was served.
#[derive(PartialEq, Eq, Structural, Clone, Copy, Debug)]
pub enum Refresh {
    /// From the local mirror as it was.
    Hit,
    /// From the local mirror after the artifact was downloaded into it.
    Downloaded,
}

/// What is to be done for a request, once the latest run is known.
pub enum NightlyPlan {
    /// Serve the stored blob.
    Serve,
    /// Download the artifact of this run, store it, then serve it.
    Download(String),
}

/// The view of the answer to the question for the latest run.
pub open spec fn run_view(answer: CiAnswer<String>) -> CiAnswer<Seq<char>> {
    match answer {
        CiAnswer::Found(id) => CiAnswer::Found(id@),
        CiAnswer::Missing => CiAnswer::Missing,
        CiAnswer::Failed => CiAnswer::Failed,
    }
}

/// The view of the answer to the download of an artifact.
pub open spec fn artifact_view(answer: CiAnswer<Vec<u8>>) -> CiAnswer<Seq<u8>> {
    match answer {
        CiAnswer::Found(bytes) => CiAnswer::Found(bytes@),
        CiAnswer::Missing => CiAnswer::Missing,
        CiAnswer::Failed => CiAnswer::Failed,
    }
}

/// A request for a nightly artifact: the store afterwards, and how the request
/// was served. `latest` is the latest successful run, `artifact` what a download
/// of that run's artifact brings; the download is made only on a miss.
pub open spec fn nightly_refresh(
    store: NightlyStoreView,
    latest: CiAnswer<Seq<char>>,
    artifact: CiAnswer<Seq<u8>>,
) -> (NightlyStoreView, Result<Refresh, ArtifactError>) {
    match latest {
        CiAnswer::Failed => (store, Err(ArtifactError::Custom)),
        CiAnswer::Missing => (store, Err(ArtifactError::NotSupported)),
        CiAnswer::Found(run_id) => if store.is_hit(run_id) {
            (store, Ok(Refresh::Hit))
        } else {
            match artifact {
                CiAnswer::Failed => (store, Err(ArtifactError::Custom)),
                CiAnswer::Missing => (store, Err(ArtifactError::NotSupported)),
                CiAnswer::Found(bytes) => (store.stored(run_id, bytes), Ok(Refresh::Downloaded)),
            }
        },
    }
}

/// Decides between serving and downloading. `NotSupported` where there is no
/// successful run, `Custom` where the CI service failed.
pub fn plan_nightly(store: &NightlyStore, latest_run: CiAnswer<String>) -> (r: Result<
    NightlyPlan,
    ArtifactError,
>)
    ensures
        match run_view(latest_run) {
            CiAnswer::Failed => r matches Err(ArtifactError::Custom),
            CiAnswer::Missing => r matches Err(ArtifactError::NotSupported),
            CiAnswer::Found(run_id) => if store@.is_hit(run_id) {
                r matches Ok(NightlyPlan::Serve)
            } else {
                r matches Ok(NightlyPlan::Download(id)) && id@ == run_id
            },
        },
{
    match latest_run {
        CiAnswer::Failed => Err(ArtifactError::Custom),
        CiAnswer::Missing => Err(ArtifactError::NotSupported),
        CiAnswer::Found(run_id) => if is_cached(store, run_id.as_str()) {
            Ok(NightlyPlan::Serve)
        } else {
            Ok(NightlyPlan::Download(run_id))
        },
    }
}

/// Serves the nightly artifact from the local mirror, after bringing the mirror
/// up to the latest successful run. On `Ok` the store holds the blob to serve.
pub fn get_generic_nightly_artifact_download(
    store: &mut NightlyStore,
    latest_run: CiAnswer<String>,
    artifact: CiAnswer<Vec<u8>>,
) -> (r: Result<Refresh, ArtifactError>)
    ensures
        (final(store)@, r) == nightly_refresh(
            old(store)@,
            run_view(latest_run),
            artifact_view(artifact),
        ),
        r is Ok ==> final(store)@.blob is Some,
{
    match plan_nightly(store, latest_run) {
        Err(e) => Err(e),
        Ok(NightlyPlan::Serve) => Ok(Refresh::Hit),
        Ok(NightlyPlan::Download(run_id)) => match artifact {
            CiAnswer::Failed => Err(ArtifactError::Custom),
            CiAnswer::Missing => Err(ArtifactError::NotSupported),
            CiAnswer::Found(binartifact) => {
                store_cached_artifact_run(store, run_id, binartifact);
                Ok(Refresh::Downloaded)
            },
        },
    }
}

/// With the latest run unchanged, a second request downloads nothing, leaves the
/// store as it is and serves the blob that the first request served. The first
/// request downloads exactly when the store did not hold the run.
pub proof fn lemma_refresh_idempotent(
    store: NightlyStoreView,
    run_id: Seq<char>,
    bytes: Seq<u8>,
    again: CiAnswer<Seq<u8>>,
)
    ensures
        ({
            let first = nightly_refresh(store, CiAnswer::Found(run_id), CiAnswer::Found(bytes));
            let second = nightly_refresh(first.0, CiAnswer::Found(run_id), again);
            &&& first.1 == Ok::<Refresh, ArtifactError>(
                if store.is_hit(run_id) {
                    Refresh::Hit
                } else {
                    Refresh::Downloaded
                },
            )
            &&& second.1 == Ok::<Refresh, ArtifactError>(Refresh::Hit)
            &&& second.0 == first.0
            &&& first.0.blob is Some
        }),
{
}

/// When the latest run has changed, the next request downloads the new run's
/// artifact, and the store then holds that blob and nothing of the old one.
pub proof fn lemma_refresh_replaces(
    store: NightlyStoreView,
    old_run: Seq<char>,
    new_run: Seq<char>,
    new_bytes: Seq<u8>,
)
    requires
        store.is_hit(old_run),
        new_run != old_run,
    ensures
        nightly_refresh(store, CiAnswer::Found(new_run), CiAnswer::Found(new_bytes)) == (
            NightlyStoreView { marker: Some(new_run), blob: Some(new_bytes) },
            Ok::<Refresh, ArtifactError>(Refresh::Downloaded),
        ),
        nightly_refresh(
            NightlyStoreView { marker: Some(new_run), blob: Some(new_bytes) },
            CiAnswer::Found(new_run),
            CiAnswer::Found(new_bytes),
        ).1 == Ok::<Refresh, ArtifactError>(Refresh::Hit),
{
}

/// A marker without its blob, or a blob without a matching marker, is a miss:
/// the artifact is downloaded again.
pub proof fn lemma_incomplete_pair_is_miss(store: NightlyStoreView, run_id: Seq<char>, bytes: Seq<u8>)
    requires
        store.blob is None || store.marker != Some(run_id),
    ensures
        !store.is_hit(run_id),
        nightly_refresh(store, CiAnswer::Found(run_id), CiAnswer::Found(bytes)) == (
            NightlyStoreView { marker: Some(run_id), blob: Some(bytes) },
            Ok::<Refresh, ArtifactError>(Refresh::Downloaded),
        ),
{
}

/// A store that is left between the two writes never counts as holding a run
/// with another blob than that run's: where it counts as a hit for the run that
/// was being stored, it holds the new blob.
pub proof fn lemma_crash_between_writes(store: NightlyStoreView, run_id: Seq<char>, bytes: Seq<u8>)
    requires
        !store.is_hit(run_id),
    ensures
        store.with_blob(bytes).is_hit(run_id) ==> store.with_blob(bytes).blob == Some(bytes),
        store.marker != Some(run_id) ==> !store.with_blob(bytes).is_hit(run_id),
{
}

/// The name under which the download of a nightly artifact is listed.
pub const PSEUDO_ENDPOINT_NAME: &'static str = "nightly-download";

/// The link under which the nightly build of an artifact is served.
pub open spec fn nightly_link(product_name: Seq<char>, key: Seq<char>) -> Seq<char> {
    "/nightly-download/"@ + product_name + "/"@ + key
}

/// How a resolved nightly artifact is shown: with the one link that serves it,
/// and without date and size.
pub open spec fn nightly_rendered(info: ArtifactInfoView, product_name: Seq<char>, key: Seq<char>) -> RenderableArtifactView {
    RenderableArtifactView {
        icon_path: info.icon,
        display_name: info.display_name,
        modified_date: None,
        file_size: None,
        urls: seq![(PSEUDO_ENDPOINT_NAME@, nightly_link(product_name, key))],
        extra_info_markdown: info.extra_info_markdown,
    }
}

/// The nightly artifacts among the first `n` downloads that resolve, in the
/// order of the downloads.
pub open spec fn nightly_collected<T: ArtifactType>(
    product_name: Seq<char>,
    nightly_config: NightlyConfig,
    settings: Map<Seq<char>, SettingValue>,
    ats: &ArtifactTypes<T>,
    n: int,
) -> Seq<RenderableArtifactView>
    decreases n,
{
    if n <= 0 {
        Seq::empty()
    } else {
        let before = nightly_collected(product_name, nightly_config, settings, ats, n - 1);
        let key = nightly_config.downloads.keys()[n - 1];
        match artifact_nightly_info_for(
            ats,
            key,
            product_name,
            nightly_config.downloads.values()[n - 1],
            setting_of(&settings, key),
        ) {
            Ok(info) => before.push(nightly_rendered(info, product_name, key)),
            Err(_) => before,
        }
    }
}

/// Resolves every nightly download of a product and shows those that resolve.
pub fn nightly_artifacts_collect<T: ArtifactType>(
    product_name: &str,
    nightly_config: &NightlyConfig,
    settings: &StringHashMap<SettingValue>,
    ats: &ArtifactTypes<T>,
) -> (r: Vec<RenderableArtifact>)
    ensures
        renderable_views(r@) == nightly_collected(
            product_name@,
            *nightly_config,
            settings@,
            ats,
            nightly_config.downloads.keys().len() as int,
        ),
{
    let downloads = &nightly_config.downloads;
    let n = downloads.len();
    let mut artifacts: Vec<RenderableArtifact> = Vec::new();
    let mut i: usize = 0;
    while i < n
        invariant
            i <= n,
            n == downloads.keys().len(),
            downloads.wf(),
            *downloads == nightly_config.downloads,
            renderable_views(artifacts@) == nightly_collected(
                product_name@,
                *nightly_config,
                settings@,
                ats,
                i as int,
            ),
        decreases n - i,
    {
        let key = downloads.key_at(i).as_str();
        let download_spec = downloads.value_at(i);
        let ghost before = renderable_views(artifacts@);
        match get_artifact_nightly_info(ats, key, product_name, download_spec, settings.get(key)) {
            Ok(artifact_info) => {
                let mut link = concat3("/nightly-download/", product_name, "/");
                link.append(key);
                let mut urls = SortedMap::new();
                urls.insert(String::from_str(PSEUDO_ENDPOINT_NAME), link);
                let shown = RenderableArtifact {
                    icon_path: match artifact_info.icon() {
                        Some(icon) => Some(icon.clone()),
                        None => None,
                    },
                    display_name: artifact_info.display_name().clone_owned(),
                    modified_date: None,
                    file_size: None,
                    urls,
                    extra_info_markdown: match artifact_info.extra_info_markdown() {
                        Some(text) => Some(text.clone()),
                        None => None,
                    },
                };
                proof {
                    assert(shown@.urls =~= seq![(PSEUDO_ENDPOINT_NAME@, nightly_link(product_name@, key@))]);
                }
                artifacts.push(shown);
                assert(renderable_views(artifacts@) =~= before.push(shown@));
            },
            Err(_) => {},
        }
        i = i + 1;
    }
    artifacts
}

/// The nightly downloads among the first `n` that do not resolve, in the order
/// of the downloads, each with the reason.
pub open spec fn nightly_failed<T: ArtifactType>(
    product_name: Seq<char>,
    nightly_config: NightlyConfig,
    settings: Map<Seq<char>, SettingValue>,
    ats: &ArtifactTypes<T>,
    n: int,
) -> Seq<(Seq<char>, ArtifactError)>
    decreases n,
{
    if n <= 0 {
        Seq::empty()
    } else {
        let before = nightly_failed(product_name, nightly_config, settings, ats, n - 1);
        let key = nightly_config.downloads.keys()[n - 1];
        match artifact_nightly_info_for(
            ats,
            key,
            product_name,
            nightly_config.downloads.values()[n - 1],
            setting_of(&settings, key),
        ) {
            Ok(_) => before,
            Err(e) => before.push((key, e)),
        }
    }
}

/// The nightly downloads that `nightly_artifacts_collect` leaves out, each with
/// the reason why it did not resolve, for the caller to report.
pub fn nightly_artifacts_failures<T: ArtifactType>(
    product_name: &str,
    nightly_config: &NightlyConfig,
    settings: &StringHashMap<SettingValue>,
    ats: &ArtifactTypes<T>,
) -> (r: Vec<(String, ArtifactError)>)
    ensures
        failure_views(r@) == nightly_failed(
            product_name@,
            *nightly_config,
            settings@,
            ats,
            nightly_config.downloads.keys().len() as int,
        ),
{
    let downloads = &nightly_config.downloads;
    let n = downloads.len();
    let mut failures: Vec<(String, ArtifactError)> = Vec::new();
    let mut i: usize = 0;
    while i < n
        invariant
            i <= n,
            n == downloads.keys().len(),
            downloads.wf(),
            *downloads == nightly_config.downloads,
            failure_views(failures@) == nightly_failed(
                product_name@,
                *nightly_config,
                settings@,
                ats,
                i as int,
            ),
        decreases n - i,
    {
        let key = downloads.key_at(i);
        let download_spec = downloads.value_at(i);
        let ghost before = failure_views(failures@);
        match get_artifact_nightly_info(
            ats,
            key.as_str(),
            product_name,
            download_spec,
            settings.get(key.as_str()),
        ) {
            Ok(_) => {},
            Err(err) => {
                failures.push((key.clone(), err));
                assert(failure_views(failures@) =~= before.push((key@, err)));
            },
        }
        i = i + 1;
    }
    failures
}

/// What the CI service says about a workflow run.
pub struct WorkflowRun {
    /// The identifier of the run.
    pub id: u64,
    /// When the run was last updated, in seconds since the epoch.
    pub updated_at: i64,
    pub head_commit_id: String,
    pub head_commit_author: String,
    pub head_commit_message: String,
    pub run_number: i64,
    pub html_url: String,
}

/// The first seven characters of a commit's identifier; all of a shorter one.
pub open spec fn short_commit(id: Seq<char>) -> Seq<char> {
    if id.len() >= 7 {
        id.subrange(0, 7)
    } else {
        id
    }
}

/// The Markdown text about the run that a nightly build comes from.
pub open spec fn nightly_comment(config: NightlyGitHubConfig, run: WorkflowRun) -> Seq<char> {
    "Latest commit: ["@ + short_commit(run.head_commit_id@) + "]("@ + ("https://github.com/"@
        + config.org@ + "/"@ + config.repo@ + "/commit/"@ + run.head_commit_id@) + ") by "@
        + run.head_commit_author@ + ": *"@ + first_line_of(run.head_commit_message@)
        + "*.\n\nBased on latest successful run: [#"@ + signed_decimal(run.run_number as int) + "]("@
        + run.html_url@ + ")."@
}

/// When the nightly build was made and what is said about it, given the latest
/// successful run: nothing where there is none, a server error where the CI
/// service failed.
pub fn get_github_nightly_info(config: &NightlyGitHubConfig, latest_run: &CiAnswer<WorkflowRun>) -> (r:
    Result<(Option<i64>, String), Status>)
    ensures
        match *latest_run {
            CiAnswer::Found(run) => r matches Ok((time, comment)) && time == Some(run.updated_at)
                && comment@ == markdown_html(nightly_comment(*config, run)),
            CiAnswer::Missing => r matches Ok((time, comment)) && time is None && comment@
                == Seq::<char>::empty(),
            CiAnswer::Failed => r matches Err(Status::InternalServerError),
        },
{
    match latest_run {
        CiAnswer::Found(run) => {
            let id = run.head_commit_id.as_str();
            let short = if id.unicode_len() >= 7 {
                id.substring_char(0, 7)
            } else {
                id
            };
            let mut head_commit_url = concat3("https://github.com/", config.org.as_str(), "/");
            head_commit_url.append(config.repo.as_str());
            head_commit_url.append("/commit/");
            head_commit_url.append(id);
            let number = i64_to_string(run.run_number);
            let mut text = concat3("Latest commit: [", short, "](");
            text.append(head_commit_url.as_str());
            text.append(") by ");
            text.append(run.head_commit_author.as_str());
            text.append(": *");
            text.append(first_line(run.head_commit_message.as_str()));
            text.append("*.\n\nBased on latest successful run: [#");
            text.append(number.as_str());
            text.append("](");
            text.append(run.html_url.as_str());
            text.append(").");
            proof {
                assert(text@ =~= nightly_comment(*config, *run));
            }
            Ok((Some(run.updated_at), markdown(text.as_str())))
        },
        CiAnswer::Missing => Ok((None, String::new())),
        CiAnswer::Failed => Err(Status::InternalServerError),
    }
}

/// The page of a product's nightly builds. `NotFound` for a product without
/// nightly builds; a server error where the CI service failed.
pub fn do_get_nightly<T: ArtifactType>(
    config: &Config<T>,
    product_key: &str,
    product_data: &Product,
    latest_run: &CiAnswer<WorkflowRun>,
) -> (r: Result<TemplateNightly, Status>)
    ensures
        product_data.nightly is None ==> r matches Err(Status::NotFound),
        product_data.nightly is Some && *latest_run is Failed ==> r matches Err(
            Status::InternalServerError,
        ),
        product_data.nightly is Some && !(*latest_run is Failed) ==> (r matches Ok(page) && {
            &&& page.self_name@ == config.self_name_view()
            &&& page.theme_name@ == config.theme_view()
            &&& page.home_url@ == config.home_url_view()
            &&& page.product_key@ == product_key@
            &&& page.product_title@ == product_data.name@
            &&& crate::artifacttype::opt_view(page.product_icon) == crate::artifacttype::opt_view(
                product_data.icon_path,
            )
            &&& page.default_endpoint_url@ == config.endpoints_view()[0].url@
            &&& page.last_built_time == match *latest_run {
                CiAnswer::Found(run) => Some(run.updated_at),
                _ => None,
            }
            &&& page.description@ == match *latest_run {
                CiAnswer::Found(run) => markdown_html(
                    nightly_comment(product_data.nightly->0.github, run),
                ),
                _ => Seq::<char>::empty(),
            }
            &&& page.downloads.theme_name@ == config.theme_view()
            &&& page.downloads.auto_endpoint@ == PSEUDO_ENDPOINT_NAME@
            &&& !page.downloads.show_file_size_and_date
            &&& renderable_views(page.downloads.artifacts@) == nightly_collected(
                product_key@,
                product_data.nightly->0,
                product_data.settings@,
                &config.artifact_types_view(),
                product_data.nightly->0.downloads.keys().len() as int,
            )
        }),
{
    if let Some(nightly_config) = &product_data.nightly {
        let artifacts = nightly_artifacts_collect(
            product_key,
            nightly_config,
            &product_data.settings,
            config.artifact_types(),
        );
        let (last_built_time, description) = match get_github_nightly_info(
            &nightly_config.github,
            latest_run,
        ) {
            Ok(info) => info,
            Err(e) => {
                return Err(e);
            },
        };
        let downloads = DownloadGridTemplate {
            theme_name: String::from_str(config.theme()),
            auto_endpoint: String::from_str(PSEUDO_ENDPOINT_NAME),
            show_file_size_and_date: false,
            artifacts,
        };
        Ok(
            TemplateNightly {
                self_name: String::from_str(config.self_name()),
                theme_name: String::from_str(config.theme()),
                home_url: String::from_str(config.home_url()),
                product_key: String::from_str(product_key),
                product_title: product_data.name.clone(),
                product_icon: match &product_data.icon_path {
                    Some(icon) => Some(icon.clone()),
                    None => None,
                },
                default_endpoint_url: String::from_str(config.default_endpoint_url()),
                last_built_time,
                description,
                downloads,
            },
        )
    } else {
        Err(Status::NotFound)
    }
}

/// The status that stands for a failed resolution of a nightly download.
pub open spec fn nightly_status(e: ArtifactError) -> Status {
    match e {
        ArtifactError::NoFallback => Status::NotFound,
        ArtifactError::NotSupported => Status::NotFound,
        _ => Status::InternalServerError,
    }
}

/// What a request for the nightly build of `artifacttype` answers: `NotFound`
/// for a product without nightly builds or without this artifact, else what the
/// artifact type that serves the key answers.
pub open spec fn nightly_artifact_answer<T: ArtifactType>(
    ats: &ArtifactTypes<T>,
    product_key: Seq<char>,
    product_data: Product,
    artifacttype: Seq<char>,
) -> Result<NightlyArtifactResponderView, Status> {
    match product_data.nightly {
        Some(nightly_config) => if nightly_config.downloads.has(artifacttype) {
            match artifact_nightly_download_for(
                ats,
                artifacttype,
                product_key,
                nightly_config.downloads.value_of(artifacttype),
                setting_of(&product_data.settings@, artifacttype),
                nightly_config,
            ) {
                Ok(responder) => Ok(responder),
                Err(e) => Err(nightly_status(e)),
            }
        } else {
            Err(Status::NotFound)
        },
        None => Err(Status::NotFound),
    }
}

/// Answers a request for the nightly build of one artifact of a product.
pub fn do_get_nightly_artifact<T: ArtifactType>(
    config: &Config<T>,
    product_key: &str,
    product_data: &Product,
    artifacttype: &str,
) -> (r: Result<NightlyArtifactResponder, Status>)
    ensures
        match r {
            Ok(responder) => nightly_artifact_answer(
                &config.artifact_types_view(),
                product_key@,
                *product_data,
                artifacttype@,
            ) == Ok::<NightlyArtifactResponderView, Status>(responder@),
            Err(e) => nightly_artifact_answer(
                &config.artifact_types_view(),
                product_key@,
                *product_data,
                artifacttype@,
            ) == Err::<NightlyArtifactResponderView, Status>(e),
        },
{
    if let Some(nightly_config) = &product_data.nightly {
        if let Some(download_spec) = nightly_config.downloads.get(artifacttype) {
            match get_artifact_nightly_download(
                config.artifact_types(),
                artifacttype,
                product_key,
                download_spec,
                product_data.settings.get(artifacttype),
                nightly_config,
            ) {
                Ok(responder) => Ok(responder),
                Err(err) => match err {
                    ArtifactError::NoFallback | ArtifactError::NotSupported => Err(Status::NotFound),
                    _ => Err(Status::InternalServerError),
                },
            }
        } else {
            Err(Status::NotFound)
        }
    } else {
        Err(Status::NotFound)
    }
}

} // verus!
