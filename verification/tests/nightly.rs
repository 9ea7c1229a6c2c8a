use deposit_box::artifacttype::builtin::BuiltinArtifactType;
use deposit_box::artifacttype::types::mac_arm64::MacArm64ArtifactType;
use deposit_box::artifacttype::{ArtifactError, ArtifactTypes, NightlyArtifactResponder};
use deposit_box::config::{Config, Endpoint, Endpoints};
use deposit_box::github::{find_workflow_run_artifact, RunArtifact};
use deposit_box::nightly::github_cache::{
    apply_step, artifact_file_name, get_cached_artifact, get_cached_artifact_run_id, is_cached,
    run_id_file_name, store_cached_artifact_run, store_steps, NightlyStore, StoreStep,
};
use deposit_box::nightly::{
    do_get_nightly, do_get_nightly_artifact, get_generic_nightly_artifact_download,
    get_github_nightly_info, nightly_artifacts_collect, nightly_artifacts_failures, plan_nightly,
    CiAnswer, NightlyConfig, NightlyGitHubConfig, NightlyPlan, Refresh, WorkflowRun,
    PSEUDO_ENDPOINT_NAME,
};
use deposit_box::ordered_map::OrderedMap;
use deposit_box::release_map::ReleaseMap;
use deposit_box::routes::Status;
use deposit_box::settings::SettingValue;
use deposit_box::storage::{DownloadSpec, Product};

fn empty_store() -> NightlyStore {
    NightlyStore { marker: None, blob: None }
}

fn found(run: &str) -> CiAnswer<String> {
    CiAnswer::Found(run.to_string())
}

fn bytes(b: &[u8]) -> CiAnswer<Vec<u8>> {
    CiAnswer::Found(b.to_vec())
}

#[test]
fn unchanged_run_is_downloaded_once_and_served_twice() {
    let mut store = empty_store();
    let first = get_generic_nightly_artifact_download(&mut store, found("41"), bytes(b"blob-41"));
    assert!(matches!(first, Ok(Refresh::Downloaded)));
    let served_first = get_cached_artifact(&store).ok().unwrap().clone();
    // The CI would hand out other bytes now, but nothing is downloaded.
    let second = get_generic_nightly_artifact_download(&mut store, found("41"), bytes(b"other"));
    assert!(matches!(second, Ok(Refresh::Hit)));
    let served_second = get_cached_artifact(&store).ok().unwrap().clone();
    assert_eq!(served_first, b"blob-41".to_vec());
    assert_eq!(served_first, served_second);
    assert_eq!(get_cached_artifact_run_id(&store), "41");
}

#[test]
fn changed_run_replaces_the_blob() {
    let mut store = empty_store();
    get_generic_nightly_artifact_download(&mut store, found("41"), bytes(b"long old blob")).ok().unwrap();
    let second = get_generic_nightly_artifact_download(&mut store, found("42"), bytes(b"new"));
    assert!(matches!(second, Ok(Refresh::Downloaded)));
    assert_eq!(get_cached_artifact(&store).ok().unwrap(), &b"new".to_vec());
    assert_eq!(store.marker.as_deref(), Some("42"));
    let third = get_generic_nightly_artifact_download(&mut store, found("42"), CiAnswer::Failed);
    assert!(matches!(third, Ok(Refresh::Hit)));
}

#[test]
fn marker_without_blob_is_a_miss() {
    let mut store = NightlyStore { marker: Some("41".to_string()), blob: None };
    assert!(!is_cached(&store, "41"));
    assert_eq!(get_cached_artifact_run_id(&store), "");
    let r = get_generic_nightly_artifact_download(&mut store, found("41"), bytes(b"again"));
    assert!(matches!(r, Ok(Refresh::Downloaded)));
    assert_eq!(store.blob, Some(b"again".to_vec()));
}

#[test]
fn blob_without_matching_marker_is_a_miss() {
    let mut store = NightlyStore { marker: None, blob: Some(b"stale".to_vec()) };
    assert!(!is_cached(&store, "41"));
    let r = get_generic_nightly_artifact_download(&mut store, found("41"), bytes(b"fresh"));
    assert!(matches!(r, Ok(Refresh::Downloaded)));
    assert_eq!(store.blob, Some(b"fresh".to_vec()));
    let mut store = NightlyStore { marker: Some("40".to_string()), blob: Some(b"stale".to_vec()) };
    assert!(matches!(plan_nightly(&store, found("41")), Ok(NightlyPlan::Download(ref id)) if id == "41"));
    assert!(matches!(plan_nightly(&store, found("40")), Ok(NightlyPlan::Serve)));
    let r = get_generic_nightly_artifact_download(&mut store, found("41"), CiAnswer::Missing);
    assert!(matches!(r, Err(ArtifactError::NotSupported)));
    assert_eq!(store.marker.as_deref(), Some("40"));
    assert_eq!(store.blob, Some(b"stale".to_vec()));
}

#[test]
fn ci_errors_are_not_retried_and_leave_the_store() {
    let mut store = empty_store();
    let r = get_generic_nightly_artifact_download(&mut store, CiAnswer::Missing, bytes(b"x"));
    assert!(matches!(r, Err(ArtifactError::NotSupported)));
    let r = get_generic_nightly_artifact_download(&mut store, CiAnswer::Failed, bytes(b"x"));
    assert!(matches!(r, Err(ArtifactError::Custom)));
    let r = get_generic_nightly_artifact_download(&mut store, found("1"), CiAnswer::Failed);
    assert!(matches!(r, Err(ArtifactError::Custom)));
    assert!(store.marker.is_none() && store.blob.is_none());
    assert!(matches!(get_cached_artifact(&store), Err(ArtifactError::Custom)));
}

#[test]
fn blob_is_written_before_the_marker() {
    let (first, second) = store_steps("7".to_string(), b"data".to_vec());
    assert!(matches!(first, StoreStep::WriteBlob(ref b) if b == b"data"));
    assert!(matches!(second, StoreStep::WriteMarker(ref m) if m == "7"));
    let mut store = NightlyStore { marker: Some("6".to_string()), blob: Some(b"old".to_vec()) };
    apply_step(&mut store, first);
    // A crash here leaves the old marker with the new blob: no hit for the new run.
    assert!(!is_cached(&store, "7"));
    apply_step(&mut store, second);
    assert!(is_cached(&store, "7"));
    let mut other = empty_store();
    store_cached_artifact_run(&mut other, "7".to_string(), b"data".to_vec());
    assert_eq!(other.marker, store.marker);
    assert_eq!(other.blob, store.blob);
}

#[test]
fn cache_file_names() {
    assert_eq!(run_id_file_name("app-linux"), "app-linux.runid");
    assert_eq!(artifact_file_name("app-linux"), "app-linux.zip");
}

#[test]
fn run_artifact_is_found_by_name() {
    let list = Some(vec![
        RunArtifact { id: 1, name: "linux".to_string() },
        RunArtifact { id: 2, name: "macos".to_string() },
        RunArtifact { id: 3, name: "macos".to_string() },
    ]);
    assert_eq!(find_workflow_run_artifact(&list, "macos"), Some(2));
    assert_eq!(find_workflow_run_artifact(&list, "windows"), None);
    assert_eq!(find_workflow_run_artifact(&None, "linux"), None);
}

fn github() -> NightlyGitHubConfig {
    NightlyGitHubConfig {
        org: "org".to_string(),
        repo: "repo".to_string(),
        workflow: "build.yml".to_string(),
        branch: "main".to_string(),
    }
}

fn run() -> WorkflowRun {
    WorkflowRun {
        id: 99,
        updated_at: 1700000000,
        head_commit_id: "0123456789abcdef".to_string(),
        head_commit_author: "Ada".to_string(),
        head_commit_message: "Fix things\n\nLong text".to_string(),
        run_number: 128,
        html_url: "https://github.com/org/repo/actions/runs/99".to_string(),
    }
}

#[test]
fn nightly_info_describes_the_run() {
    let (time, comment) = get_github_nightly_info(&github(), &CiAnswer::Found(run())).ok().unwrap();
    assert_eq!(time, Some(1700000000));
    assert_eq!(
        comment,
        "<p>Latest commit: <a href=\"https://github.com/org/repo/commit/0123456789abcdef\">0123456</a> by Ada: <em>Fix things</em>.</p>\n<p>Based on latest successful run: <a href=\"https://github.com/org/repo/actions/runs/99\">#128</a>.</p>\n"
    );
    let (time, comment) = get_github_nightly_info(&github(), &CiAnswer::Missing).ok().unwrap();
    assert_eq!((time, comment.as_str()), (None, ""));
    assert!(matches!(
        get_github_nightly_info(&github(), &CiAnswer::Failed),
        Err(Status::InternalServerError)
    ));
}

fn nightly_product() -> Product {
    let mut downloads = OrderedMap::new();
    downloads.insert("github".to_string(), DownloadSpec::Url("master".to_string()));
    downloads.insert("pypi".to_string(), DownloadSpec::Null);
    downloads.insert("other".to_string(), DownloadSpec::Url("file-x".to_string()));
    let mut product = Product::new("Foo".to_string(), ReleaseMap::from_entries(Vec::new()));
    product.icon_path = Some("foo.png".to_string());
    product.set_setting("github".to_string(), SettingValue::string("org/repo"));
    product.nightly = Some(NightlyConfig { github: github(), downloads });
    product
}

fn config() -> Config<BuiltinArtifactType> {
    let endpoints = Endpoints::new(vec![Endpoint {
        key: "eu".to_string(),
        display_name: "Europe".to_string(),
        url: "https://eu.example".to_string(),
        location: "50 8".to_string(),
    }])
    .unwrap();
    let vars = vec![
        ("DEPBOX_HOME_URL".to_string(), "https://home.example".to_string()),
        ("DEPBOX_THEME".to_string(), "dark".to_string()),
    ];
    Config::load(ArtifactTypes::default(), endpoints, &vars, true).ok().unwrap()
}

#[test]
fn nightly_artifacts_link_to_the_nightly_download() {
    let product = nightly_product();
    let ats = ArtifactTypes::<BuiltinArtifactType>::default();
    let shown = nightly_artifacts_collect("foo", product.nightly.as_ref().unwrap(), &product.settings, &ats);
    // PyPI and the fallback have no nightly builds: only GitHub is shown.
    assert_eq!(shown.len(), 1);
    assert_eq!(shown[0].display_title(), "Source on GitHub");
    assert_eq!(shown[0].urls.len(), 1);
    assert_eq!(shown[0].urls.key_at(0), PSEUDO_ENDPOINT_NAME);
    assert_eq!(shown[0].urls.value_at(0), "/nightly-download/foo/github");
    assert!(shown[0].modified_date.is_none() && shown[0].file_size.is_none());
    let failures =
        nightly_artifacts_failures("foo", product.nightly.as_ref().unwrap(), &product.settings, &ats);
    assert_eq!(
        failures,
        vec![
            ("pypi".to_string(), ArtifactError::NotSupported),
            ("other".to_string(), ArtifactError::NotSupported)
        ]
    );
}

#[test]
fn nightly_artifacts_keep_the_order_of_the_downloads() {
    let product = nightly_product();
    let mut ats = ArtifactTypes::<BuiltinArtifactType>::default();
    ats.register("other".to_string(), BuiltinArtifactType::MacArm64(MacArm64ArtifactType));
    let shown = nightly_artifacts_collect("foo", product.nightly.as_ref().unwrap(), &product.settings, &ats);
    assert_eq!(shown.len(), 2);
    assert_eq!(shown[1].display_title(), "MacOS arm64");
    assert_eq!(shown[1].display_subtitle(), "file-x");
    assert_eq!(shown[1].urls.value_at(0), "/nightly-download/foo/other");
    let failures =
        nightly_artifacts_failures("foo", product.nightly.as_ref().unwrap(), &product.settings, &ats);
    assert_eq!(failures, vec![("pypi".to_string(), ArtifactError::NotSupported)]);
}

#[test]
fn nightly_page() {
    let product = nightly_product();
    let page = do_get_nightly(&config(), "foo", &product, &CiAnswer::Found(run())).ok().unwrap();
    assert_eq!(page.self_name, "Deposit Box");
    assert_eq!(page.theme_name, "dark");
    assert_eq!(page.home_url, "https://home.example");
    assert_eq!(page.product_key, "foo");
    assert_eq!(page.product_title, "Foo");
    assert_eq!(page.product_icon.as_deref(), Some("foo.png"));
    assert_eq!(page.default_endpoint_url, "https://eu.example");
    assert_eq!(page.last_built_time, Some(1700000000));
    assert!(page.description.contains("#128"));
    assert_eq!(page.downloads.auto_endpoint, "nightly-download");
    assert!(!page.downloads.show_file_size_and_date);
    assert_eq!(page.downloads.artifacts.len(), 1);
    let page = do_get_nightly(&config(), "foo", &product, &CiAnswer::Missing).ok().unwrap();
    assert_eq!((page.last_built_time, page.description.as_str()), (None, ""));
    assert!(matches!(
        do_get_nightly(&config(), "foo", &product, &CiAnswer::Failed),
        Err(Status::InternalServerError)
    ));
    let plain = Product::new("Bar".to_string(), ReleaseMap::from_entries(Vec::new()));
    assert!(matches!(do_get_nightly(&config(), "bar", &plain, &CiAnswer::Missing), Err(Status::NotFound)));
}

#[test]
fn nightly_artifact_requests() {
    let product = nightly_product();
    let config = config();
    match do_get_nightly_artifact(&config, "foo", &product, "github") {
        Ok(NightlyArtifactResponder::Redirect(to)) => assert_eq!(to, "https://github.com/org/repo/tree/master"),
        _ => panic!("expected a redirect"),
    }
    // PyPI has no nightly builds, the fallback serves none either.
    assert!(matches!(do_get_nightly_artifact(&config, "foo", &product, "pypi"), Err(Status::NotFound)));
    assert!(matches!(do_get_nightly_artifact(&config, "foo", &product, "other"), Err(Status::NotFound)));
    assert!(matches!(do_get_nightly_artifact(&config, "foo", &product, "absent"), Err(Status::NotFound)));
    let mut broken = nightly_product();
    broken.settings = Product::new("x".to_string(), ReleaseMap::from_entries(Vec::new())).settings;
    assert!(matches!(
        do_get_nightly_artifact(&config, "foo", &broken, "github"),
        Err(Status::InternalServerError)
    ));
    let plain = Product::new("Bar".to_string(), ReleaseMap::from_entries(Vec::new()));
    assert!(matches!(do_get_nightly_artifact(&config, "bar", &plain, "github"), Err(Status::NotFound)));
}
