use deposit_box::artifacttype::builtin::BuiltinArtifactType;
use deposit_box::artifacttype::fallback::FallbackArtifactType;
use deposit_box::artifacttype::render::{
    artifacts_collect, artifacts_describe, artifacts_describe_requests, artifacts_failures,
    get_file_metadata, BucketObject,
};
use deposit_box::artifacttype::types::flatpak::{
    flatpak_remote_add, get_flatpakref, get_flatpakref_custom, FlatpakArtifactType, FlatpakRepo,
    Flatpakref,
};
use deposit_box::artifacttype::types::flathub::{FlathubArtifactType, FlathubBeta};
use deposit_box::artifacttype::types::github::GithubArtifactType;
use deposit_box::artifacttype::types::mac64::Mac64ArtifactType;
use deposit_box::artifacttype::types::mac_arm64::MacArm64ArtifactType;
use deposit_box::artifacttype::types::pypi::PypiArtifactType;
use deposit_box::artifacttype::types::win32::Win32ArtifactType;
use deposit_box::artifacttype::{
    get_artifact_info, get_artifact_nightly_download, get_artifact_nightly_info,
    ArtifactDisplayTitle, ArtifactError, ArtifactInfo, ArtifactType, ArtifactTypes,
    NightlyArtifactResponder, FALLBACK_KEY,
};
use deposit_box::config::{Endpoint, Endpoints};
use deposit_box::nightly::{NightlyConfig, NightlyGitHubConfig};
use deposit_box::ordered_map::OrderedMap;
use deposit_box::release_map::{NamedVersion, ReleaseMap};
use deposit_box::routes::Status;
use deposit_box::settings::SettingValue;
use deposit_box::storage::{DownloadSpec, Product, VersionInfo};

fn url(value: &str) -> DownloadSpec {
    DownloadSpec::Url(value.to_string())
}

fn endpoint(key: &str, display_name: &str, url: &str) -> Endpoint {
    Endpoint {
        key: key.to_string(),
        display_name: display_name.to_string(),
        url: url.to_string(),
        location: "0 0".to_string(),
    }
}

fn nightly_config() -> NightlyConfig {
    NightlyConfig {
        github: NightlyGitHubConfig {
            org: "o".to_string(),
            repo: "r".to_string(),
            workflow: "w".to_string(),
            branch: "main".to_string(),
        },
        downloads: OrderedMap::new(),
    }
}

fn pairs(map: &deposit_box::sorted_map::SortedMap) -> Vec<(String, String)> {
    (0..map.len()).map(|i| (map.key_at(i).to_string(), map.value_at(i).to_string())).collect()
}

#[test]
fn unknown_key_resolves_via_fallback() {
    let ats = ArtifactTypes::<BuiltinArtifactType>::default();
    let info = get_artifact_info(&ats, "solaris", "foo", "1.0", &url("foo.pkg"), None).unwrap();
    assert_eq!(info.display_name().title(), "foo.pkg");
    assert_eq!(info.display_name().subtitle(), "");
    assert!(info.icon().is_none());
    assert_eq!(info.file_path("foo", "1.0"), Some("foo/1.0/foo.pkg".to_string()));
}

#[test]
fn registry_without_fallback_says_no_fallback() {
    let mut ats: ArtifactTypes<BuiltinArtifactType> = ArtifactTypes::new();
    ats.register("mac64".to_string(), BuiltinArtifactType::Mac64(Mac64ArtifactType));
    let r = get_artifact_info(&ats, "solaris", "foo", "1.0", &url("foo.pkg"), None);
    assert!(matches!(r, Err(ArtifactError::NoFallback)));
    assert!(get_artifact_info(&ats, "mac64", "foo", "1.0", &url("foo.dmg"), None).is_ok());
    assert!(matches!(ats.lookup("solaris"), Err(ArtifactError::NoFallback)));
    let n = get_artifact_nightly_info(&ats, "solaris", "foo", &url("x"), None);
    assert!(matches!(n, Err(ArtifactError::NoFallback)));
    let d = get_artifact_nightly_download(&ats, "solaris", "foo", &url("x"), None, &nightly_config());
    assert!(matches!(d, Err(ArtifactError::NoFallback)));
}

#[test]
fn registered_key_wins_over_fallback() {
    let ats = ArtifactTypes::<BuiltinArtifactType>::default();
    let info = get_artifact_info(&ats, "win32", "foo", "1.0", &url("foo.exe"), None).unwrap();
    assert_eq!(info.display_name().title(), "Windows (32-bit)");
    assert_eq!(info.display_name().subtitle(), "foo.exe");
    assert_eq!(info.icon().map(|s| s.as_str()), Some("win32.png"));
}

#[test]
fn default_registry_has_its_keys_in_order() {
    let ats = ArtifactTypes::<BuiltinArtifactType>::default();
    let keys: Vec<&str> = (0..ats.0.len()).map(|i| ats.0.key_at(i).as_str()).collect();
    assert_eq!(keys, vec!["__fallback", "flathub", "github", "mac64", "pypi", "win32"]);
    assert_eq!(FALLBACK_KEY, "__fallback");
}

#[test]
fn fallback_nightly_operations() {
    let at = FallbackArtifactType;
    let r = at.get_nightly_artifact_info("foo", &url("x.zip"), None);
    assert!(matches!(r, Err(ArtifactError::NotSupported)));
    let r = at.get_nightly_artifact_info("foo", &DownloadSpec::Null, Some(&SettingValue::string("s")));
    assert!(matches!(r, Err(ArtifactError::NotSupported)));
    let r = at.get_nightly_artifact_download("foo", &url("x.zip"), None, &nightly_config());
    assert!(matches!(r, Err(ArtifactError::NotSupported)));
    // An unknown key has no nightly build either, but it is no registry error.
    let ats = ArtifactTypes::<BuiltinArtifactType>::default();
    let r = get_artifact_nightly_info(&ats, "solaris", "foo", &url("x.zip"), None);
    assert!(matches!(r, Err(ArtifactError::NotSupported)));
}

#[test]
fn mac_types_show_file_name_below_title() {
    let info = Mac64ArtifactType.get_artifact("foo", "1.0", &url("foo.dmg"), None).unwrap();
    assert_eq!(info.display_name().title(), "MacOS Intel x86");
    assert_eq!(info.display_name().subtitle(), "foo.dmg");
    assert_eq!(info.icon().map(|s| s.as_str()), Some("mac64.png"));
    let info = MacArm64ArtifactType.get_artifact("foo", "1.0", &url("foo-arm.dmg"), None).unwrap();
    assert_eq!(info.display_name().title(), "MacOS arm64");
    assert_eq!(info.file_path("foo", "1.0"), Some("foo/1.0/foo-arm.dmg".to_string()));
    let r = Win32ArtifactType.get_nightly_artifact_info("foo", &url("x"), None);
    assert!(matches!(r, Err(ArtifactError::NotSupported)));
}

#[test]
fn mac_arm64_nightly_is_served_from_the_ci_artifact() {
    let at = MacArm64ArtifactType;
    let r = at.get_nightly_artifact_download("foo", &url("foo-macos"), None, &nightly_config());
    match r {
        Ok(NightlyArtifactResponder::File(name)) => assert_eq!(name, "foo-macos"),
        _ => panic!("expected the CI artifact"),
    }
    let info = at.get_nightly_artifact_info("foo", &url("foo-macos"), None).unwrap();
    assert_eq!(info.display_name().subtitle(), "foo-macos");
    assert_eq!(info.file_path("foo", "1.0"), None);
}

#[test]
fn pypi_needs_the_project_name() {
    let setting = SettingValue::string("skytemple");
    let info = PypiArtifactType.get_artifact("foo", "1.2.3", &DownloadSpec::Null, Some(&setting)).unwrap();
    assert_eq!(info.display_name().title(), "Package on PyPi");
    assert_eq!(info.remote_url(), Some("https://pypi.org/project/skytemple/1.2.3/"));
    assert_eq!(info.file_path("foo", "1.2.3"), None);
    let r = PypiArtifactType.get_artifact("foo", "1.2.3", &DownloadSpec::Null, None);
    assert!(matches!(r, Err(ArtifactError::MissingSetting)));
    let r = PypiArtifactType.get_artifact("foo", "1.2.3", &DownloadSpec::Null, Some(&SettingValue::Bool(true)));
    assert!(matches!(r, Err(ArtifactError::MissingSetting)));
    let r = PypiArtifactType.get_nightly_artifact_info("foo", &DownloadSpec::Null, Some(&setting));
    assert!(matches!(r, Err(ArtifactError::NotSupported)));
}

#[test]
fn github_links_to_the_tree() {
    let setting = SettingValue::string("org/repo");
    let at = GithubArtifactType;
    let info = at.get_artifact("foo", "1.2.3", &DownloadSpec::Null, Some(&setting)).unwrap();
    assert_eq!(info.remote_url(), Some("https://github.com/org/repo/tree/1.2.3"));
    assert_eq!(info.icon().map(|s| s.as_str()), Some("github.png"));
    let r = at.get_nightly_artifact_download("foo", &url("master"), Some(&setting), &nightly_config());
    match r {
        Ok(NightlyArtifactResponder::Redirect(to)) => {
            assert_eq!(to, "https://github.com/org/repo/tree/master")
        }
        _ => panic!("expected a redirect"),
    }
    let r = at.get_nightly_artifact_download("foo", &url("master"), None, &nightly_config());
    assert!(matches!(r, Err(ArtifactError::MissingSetting)));
}

fn version_info(changelog: Option<&str>, section: Option<u64>) -> VersionInfo {
    VersionInfo {
        date: "2024-01-01".to_string(),
        description: None,
        changelog: changelog.map(|s| s.to_string()),
        changelog_section: section,
        downloads: OrderedMap::new(),
    }
}

#[test]
fn github_describe_asks_for_the_tagged_release() {
    let setting = SettingValue::string("org/repo/extra");
    let info = version_info(None, None);
    let version = NamedVersion { name: "1.0", info: &info };
    let request = GithubArtifactType.describe_request(Some(&setting), &version).unwrap();
    assert_eq!((request.org.as_str(), request.repo.as_str(), request.tag.as_str()), ("org", "repo/extra", "1.0"));
    let info = version_info(Some("v1"), None);
    let version = NamedVersion { name: "1.0", info: &info };
    let request = GithubArtifactType.describe_request(Some(&setting), &version).unwrap();
    assert_eq!(request.tag, "v1");
    assert!(GithubArtifactType.describe_request(Some(&SettingValue::string("norepo")), &version).is_none());
    assert!(GithubArtifactType.describe_request(None, &version).is_none());
}

#[test]
fn github_describe_takes_the_named_section() {
    let setting = SettingValue::string("org/repo");
    let notes = "first\n---\r\nsecond\n---\r\nthird";
    let info = version_info(None, Some(1));
    let version = NamedVersion { name: "1.0", info: &info };
    let mut map = OrderedMap::new();
    GithubArtifactType.describe(&mut map, Some(&setting), &version, Some(notes));
    assert_eq!(map.len(), 1);
    assert_eq!(map.get("Changelog").map(|s| s.as_str()), Some("second\n"));

    let info = version_info(None, Some(3));
    let version = NamedVersion { name: "1.0", info: &info };
    let mut map = OrderedMap::new();
    GithubArtifactType.describe(&mut map, Some(&setting), &version, Some(notes));
    assert_eq!(map.len(), 0);

    let info = version_info(None, None);
    let version = NamedVersion { name: "1.0", info: &info };
    let mut map = OrderedMap::new();
    GithubArtifactType.describe(&mut map, Some(&setting), &version, Some(notes));
    assert_eq!(map.get("Changelog").map(|s| s.as_str()), Some(notes));
    let mut map = OrderedMap::new();
    GithubArtifactType.describe(&mut map, Some(&setting), &version, None);
    assert_eq!(map.len(), 0);
    let mut map = OrderedMap::new();
    GithubArtifactType.describe(&mut map, None, &version, Some(notes));
    assert_eq!(map.len(), 0);
}

#[test]
fn flatpak_from_flathub_takes_package_id_from_setting() {
    let at = FlatpakArtifactType::new("flathub", Some(FlatpakRepo::flathub_stable()));
    let setting = SettingValue::string("org.example.App");
    let info = at.get_artifact("foo", "1.0", &url("abc"), Some(&setting)).unwrap();
    assert_eq!(info.display_name().title(), "Linux Flatpak");
    assert_eq!(info.remote_url(), Some("/flathub/foo/1.0"));
    assert_eq!(
        info.extra_info_markdown().map(|s| s.as_str()),
        Some("See [Quick Setup](https://flatpak.org/setup/) to get started.")
    );
    assert!(matches!(at.get_artifact("foo", "1.0", &url("abc"), None), Err(ArtifactError::MissingSetting)));
    let nightly = at.get_nightly_artifact_info("foo", &url("abc"), Some(&setting)).unwrap();
    assert_eq!(nightly.remote_url(), None);
    match at.get_nightly_artifact_download("Foo", &url("abc"), Some(&setting), &nightly_config()) {
        Ok(NightlyArtifactResponder::Flatpakref(f)) => {
            assert_eq!(f.file_name(), "org.example.App.flatpakref");
            assert_eq!(
                f.into_string(),
                "[Flatpak Ref]\nVersion=1\nName=org.example.App\nBranch=stable\nTitle=Foo\nUrl=https://dl.flathub.org/repo/\nRuntimeRepo=https://dl.flathub.org/repo/flathub.flatpakrepo\ngpg-verify=true\ngpg-verify-summary=true\n"
            );
        }
        _ => panic!("expected a flatpakref"),
    }
}

fn custom_setting(gpg: SettingValue) -> SettingValue {
    let mut m = OrderedMap::new();
    m.insert("repo".to_string(), SettingValue::string("https://repo.example/"));
    m.insert("repo_suggested_name".to_string(), SettingValue::string("Example"));
    m.insert("repo_gpg_verify".to_string(), gpg);
    m.insert("repo_branch".to_string(), SettingValue::string("master"));
    m.insert("package".to_string(), SettingValue::string("org.example.App"));
    SettingValue::Mapping(m)
}

#[test]
fn custom_flatpak_repo_comes_from_the_setting() {
    let at = FlatpakArtifactType::new("flatpak_custom", None);
    let setting = custom_setting(SettingValue::Bool(false));
    let info = at.get_artifact("foo", "1.0", &url("abc"), Some(&setting)).unwrap();
    assert_eq!(info.remote_url(), Some("/flatpak_custom/foo/1.0"));
    assert_eq!(
        info.extra_info_markdown().map(|s| s.as_str()),
        Some("You may need to set up our custom Flatpak repo first using\n\n```flatpak --user remote-add --no-gpg-verify Example https://repo.example/```")
    );
    let broken = custom_setting(SettingValue::string("yes"));
    assert!(matches!(at.get_artifact("foo", "1.0", &url("abc"), Some(&broken)), Err(ArtifactError::MissingSetting)));
    let plain = SettingValue::string("org.example.App");
    assert!(matches!(at.get_artifact("foo", "1.0", &url("abc"), Some(&plain)), Err(ArtifactError::MissingSetting)));
}

#[test]
fn flatpak_remote_add_command() {
    let repo = FlatpakRepo::flatpak_custom("https://r/".to_string(), "R".to_string(), true, "b".to_string());
    assert_eq!(flatpak_remote_add(&repo), "flatpak --user remote-add R https://r/");
    assert_eq!(
        flatpak_remote_add(&FlatpakRepo::flathub_beta()),
        "flatpak --user remote-add Flathub Beta https://dl.flathub.org/repo/"
    );
}

fn catalog_products() -> OrderedMap<Product> {
    let mut product = Product::new("Foo App".to_string(), ReleaseMap::from_entries(Vec::new()));
    product.set_setting("flathub".to_string(), SettingValue::string("org.example.Foo"));
    product.set_setting("flatpak_custom".to_string(), custom_setting(SettingValue::Bool(true)));
    let mut products = OrderedMap::new();
    products.insert("foo".to_string(), product);
    products.insert("bar".to_string(), Product::new("Bar".to_string(), ReleaseMap::from_entries(Vec::new())));
    products
}

fn text_of(r: Result<Flatpakref, Status>) -> String {
    match r {
        Ok(f) => f.into_string(),
        Err(_) => panic!("expected a flatpakref"),
    }
}

#[test]
fn flatpakref_routes() {
    let products = catalog_products();
    let text = text_of(get_flatpakref(false, &products, "foo"));
    assert!(text.contains("Name=org.example.Foo\nBranch=stable\nTitle=Foo App\n"));
    assert!(matches!(get_flatpakref(true, &products, "foo"), Err(Status::NotFound)));
    assert!(matches!(get_flatpakref(false, &products, "bar"), Err(Status::NotFound)));
    assert!(matches!(get_flatpakref(false, &products, "nope"), Err(Status::NotFound)));
    let text = text_of(get_flatpakref_custom(false, &products, "foo"));
    assert!(text.contains("Name=org.example.App\nBranch=master\nTitle=Foo App\nUrl=https://repo.example/\n"));
    assert!(text.ends_with("gpg-verify=true\ngpg-verify-summary=true\n"));
}

#[test]
fn flathub_branch_types() {
    let at: FlathubArtifactType<FlathubBeta> = FlathubArtifactType(std::marker::PhantomData);
    let setting = SettingValue::string("org.example.App");
    let info = at.get_artifact("foo", "1.0", &url("abc123"), Some(&setting)).unwrap();
    assert_eq!(info.remote_url(), Some("/flathub_beta/foo/1.0"));
    assert!(info.extra_info_markdown().unwrap().ends_with("use commit **abc123**.*"));
    assert!(matches!(at.get_artifact("foo", "1.0", &url("abc"), None), Err(ArtifactError::MissingSetting)));
    let products = catalog_products();
    let f = deposit_box::artifacttype::types::flathub::get_flatpakref(false, &products, "foo").ok().unwrap();
    assert_eq!(
        f.into_string(),
        "[Flatpak Ref]\nVersion=1\nName=org.example.Foo\nBranch=stable\nTitle=Foo App\nUrl=https://dl.flathub.org/repo/\nRuntimeRepo=https://dl.flathub.org/repo/flathub.flatpakrepo\n"
    );
    assert!(matches!(
        deposit_box::artifacttype::types::flathub::get_flatpakref_beta(false, &products, "foo"),
        Err(Status::NotFound)
    ));
    assert!(matches!(
        deposit_box::artifacttype::types::flathub::get_flatpakref(true, &products, "foo"),
        Err(Status::NotFound)
    ));
}

#[test]
fn artifact_info_accessors() {
    let mut info = ArtifactInfo::new_file(
        ArtifactDisplayTitle::descriptive("f.zip", "Title"),
        Some("i.png".to_string()),
        "f.zip".to_string(),
    );
    assert_eq!(info.display_name().title(), "Title");
    assert_eq!(info.display_name().subtitle(), "f.zip");
    assert!(info.extra_info_markdown().is_none());
    info.set_extra_info_markdown("*hi*".to_string());
    assert_eq!(info.extra_info_markdown().map(|s| s.as_str()), Some("*hi*"));
    assert_eq!(info.file_path("p", "v"), Some("p/v/f.zip".to_string()));
    let copy = info.display_name().clone_owned();
    assert_eq!(copy.title(), "Title");
    let remote = ArtifactInfo::new_url(ArtifactDisplayTitle::simple("S"), None, "https://x/".to_string());
    assert_eq!(remote.file_path("p", "v"), None);
    assert_eq!(remote.remote_url(), Some("https://x/"));
    let empty = ArtifactInfo::new_empty(ArtifactDisplayTitle::simple("S"), None);
    assert_eq!(empty.file_path("p", "v"), None);
}

#[test]
fn urls_are_listed_by_display_name() {
    let endpoints = Endpoints::new(vec![
        endpoint("us", "USA", "https://us.example"),
        endpoint("eu", "Europe", "https://eu.example"),
        endpoint("eu2", "Europe", "https://eu2.example"),
    ])
    .unwrap();
    let file = ArtifactInfo::new_file(ArtifactDisplayTitle::simple("f"), None, "f.zip".to_string());
    assert_eq!(
        pairs(&file.urls("p", "1.0", &endpoints)),
        vec![
            ("Europe".to_string(), "https://eu2.example/p/1.0/f.zip".to_string()),
            ("USA".to_string(), "https://us.example/p/1.0/f.zip".to_string()),
        ]
    );
    let remote = ArtifactInfo::new_url(ArtifactDisplayTitle::simple("f"), None, "https://x/".to_string());
    assert_eq!(
        pairs(&remote.urls("p", "1.0", &endpoints)),
        vec![("Europe".to_string(), "https://x/".to_string()), ("USA".to_string(), "https://x/".to_string())]
    );
    let empty = ArtifactInfo::new_empty(ArtifactDisplayTitle::simple("f"), None);
    assert_eq!(empty.urls("p", "1.0", &endpoints).len(), 0);
}

#[test]
fn endpoints_with_a_shared_key_are_refused() {
    assert!(Endpoints::new(vec![endpoint("a", "A", "u"), endpoint("a", "B", "v")]).is_none());
    assert!(Endpoints::new(Vec::new()).is_some());
}

#[test]
fn file_metadata_is_taken_from_the_first_match() {
    let list = Some(vec![
        BucketObject { key: "a".to_string(), last_modified: "d1".to_string(), size: 1 },
        BucketObject { key: "b".to_string(), last_modified: "d2".to_string(), size: 2 },
        BucketObject { key: "b".to_string(), last_modified: "d3".to_string(), size: 3 },
    ]);
    assert_eq!(get_file_metadata(&list, "b"), Some(("d2", 2)));
    assert_eq!(get_file_metadata(&list, "c"), None);
    assert_eq!(get_file_metadata(&None, "a"), None);
}

#[test]
fn collect_skips_what_does_not_resolve() {
    let ats = ArtifactTypes::<BuiltinArtifactType>::default();
    let endpoints = Endpoints::new(vec![endpoint("eu", "Europe", "https://eu.example")]).unwrap();
    let mut downloads = OrderedMap::new();
    downloads.insert("win32".to_string(), url("foo.exe"));
    downloads.insert("pypi".to_string(), DownloadSpec::Null);
    downloads.insert("other".to_string(), url("foo.tar"));
    let info = VersionInfo {
        date: "d".to_string(),
        description: None,
        changelog: None,
        changelog_section: None,
        downloads,
    };
    let version = NamedVersion { name: "1.0", info: &info };
    let product = Product::new("Foo".to_string(), ReleaseMap::from_entries(Vec::new()));
    let bucket = Some(vec![BucketObject {
        key: "foo/1.0/foo.exe".to_string(),
        last_modified: "2024-03-05T17:08:09.000Z".to_string(),
        size: 1500,
    }]);
    let shown = artifacts_collect("foo", &product.settings, &version, &ats, &endpoints, bucket);
    assert_eq!(shown.len(), 2);
    assert_eq!(shown[0].display_title(), "Windows (32-bit)");
    assert_eq!(shown[0].display_subtitle(), "foo.exe");
    assert_eq!(shown[0].modified_date.as_deref(), Some("2024-03-05 17:08"));
    assert_eq!(shown[0].file_size.as_deref(), Some("1.50 kB"));
    assert_eq!(pairs(&shown[0].urls), vec![("Europe".to_string(), "https://eu.example/foo/1.0/foo.exe".to_string())]);
    assert_eq!(shown[1].display_title(), "foo.tar");
    assert_eq!(shown[1].modified_date, None);
    assert_eq!(shown[1].file_size, None);
    // What is left out is reported with its reason.
    let failures = artifacts_failures("foo", &product.settings, &version, &ats);
    assert_eq!(failures, vec![("pypi".to_string(), ArtifactError::MissingSetting)]);
    let mut bare: ArtifactTypes<BuiltinArtifactType> = ArtifactTypes::new();
    bare.register("win32".to_string(), BuiltinArtifactType::Win32(Win32ArtifactType));
    let failures = artifacts_failures("foo", &product.settings, &version, &bare);
    assert_eq!(
        failures,
        vec![("pypi".to_string(), ArtifactError::NoFallback), ("other".to_string(), ArtifactError::NoFallback)]
    );
}

#[test]
fn describe_collects_over_the_registry() {
    let ats = ArtifactTypes::<BuiltinArtifactType>::default();
    let mut product = Product::new("Foo".to_string(), ReleaseMap::from_entries(Vec::new()));
    product.set_setting("github".to_string(), SettingValue::string("org/repo"));
    let info = version_info(None, None);
    let version = NamedVersion { name: "1.0", info: &info };
    let requests = artifacts_describe_requests(&product.settings, &version, &ats);
    assert_eq!(requests.len(), 6);
    let asked: Vec<bool> = requests.iter().map(|r| r.is_some()).collect();
    assert_eq!(asked, vec![false, false, true, false, false, false]);
    let notes = vec![None, None, Some("notes".to_string()), None, None, None];
    let described = artifacts_describe(&product.settings, &version, &ats, &notes);
    assert_eq!(described.len(), 1);
    assert_eq!(described.get("Changelog").map(|s| s.as_str()), Some("notes"));
    let described = artifacts_describe(&product.settings, &version, &ats, &Vec::new());
    assert_eq!(described.len(), 0);
}

#[test]
fn error_messages() {
    assert_eq!(
        ArtifactError::NoFallback.message(),
        "The server did not know how to handle the artifact type and no fallback was provided."
    );
    assert_eq!(
        ArtifactError::MissingSetting.message(),
        "The product did not have the configuration for this artifact type in the correct format."
    );
    assert_eq!(ArtifactError::NotSupported.message(), "Not supported");
    assert_eq!(ArtifactError::Custom.message(), "Custom error");
}

#[test]
fn title_from_a_string_is_simple() {
    let title = ArtifactDisplayTitle::from("Plain".to_string());
    assert_eq!(title.title(), "Plain");
    assert_eq!(title.subtitle(), "");
}
