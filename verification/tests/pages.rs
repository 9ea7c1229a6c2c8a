use deposit_box::artifacttype::builtin::BuiltinArtifactType;
use deposit_box::artifacttype::render::BucketObject;
use deposit_box::artifacttype::ArtifactTypes;
use deposit_box::config::{Config, Endpoint, Endpoints, SelfName};
use deposit_box::endpoints_env::{do_load_from_env, EndpointsError};
use deposit_box::markdown::markdown;
use deposit_box::ordered_map::OrderedMap;
use deposit_box::release_map::ReleaseMap;
use deposit_box::routes::{
    do_get_release, favicon, get_banner, get_banner_png, get_product, get_root, internal_server_error,
    is_release_info, markdown_values, not_found, other_error, relayed_response, select_version,
    GetProductResponder, Status,
};
use deposit_box::settings::SettingValue;
use deposit_box::sorted_map::SortedMap;
use deposit_box::storage::{
    Banner, DownloadSpec, PreReleasePatternEntry, Product, ProductsConfig, VersionInfo,
};
use deposit_box::templates::endpoint_links;

fn var(name: &str, value: &str) -> (String, String) {
    (name.to_string(), value.to_string())
}

fn endpoint(key: &str, display_name: &str, url: &str) -> Endpoint {
    Endpoint {
        key: key.to_string(),
        display_name: display_name.to_string(),
        url: url.to_string(),
        location: "0 0".to_string(),
    }
}

fn endpoints() -> Endpoints {
    Endpoints::new(vec![
        endpoint("us", "USA", "https://us.example"),
        endpoint("eu", "Europe", "https://eu.example"),
    ])
    .unwrap()
}

fn config_with(extra: Vec<(String, String)>) -> Config<BuiltinArtifactType> {
    let mut vars = vec![var("DEPBOX_HOME_URL", "https://home.example"), var("DEPBOX_THEME", "dark")];
    vars.extend(extra);
    Config::load(ArtifactTypes::default(), endpoints(), &vars, true).ok().unwrap()
}

fn version(date: &str, description: Option<&str>, downloads: &[(&str, &str)]) -> VersionInfo {
    let mut map = OrderedMap::new();
    for (k, v) in downloads {
        map.insert(k.to_string(), DownloadSpec::Url(v.to_string()));
    }
    VersionInfo {
        date: date.to_string(),
        description: description.map(|s| s.to_string()),
        changelog: None,
        changelog_section: None,
        downloads: map,
    }
}

fn catalog() -> ProductsConfig {
    let versions = ReleaseMap::from_entries(vec![
        ("1.0".to_string(), version("2023-01-01", None, &[("win32", "foo-1.0.exe")])),
        ("2.0".to_string(), version("2024-01-01", Some("**New**"), &[("win32", "foo.exe"), ("pypi", "")])),
        ("3.0-rc1".to_string(), version("2024-06-01", None, &[])),
    ]);
    let mut foo = Product::new("Foo".to_string(), versions);
    foo.icon_path = Some("foo.png".to_string());
    foo.set_setting("github".to_string(), SettingValue::string("org/foo"));
    let mut products = OrderedMap::new();
    products.insert("foo".to_string(), foo);
    products.insert("empty".to_string(), Product::new("Empty".to_string(), ReleaseMap::from_entries(Vec::new())));
    ProductsConfig {
        products,
        banner: Some(Banner { url_file: "https://b/url".to_string(), image_file: "https://b/img".to_string() }),
        pre_release_patterns: vec![PreReleasePatternEntry {
            pattern: "-rc\\d+$".to_string(),
            display_name: "Release Candidate".to_string(),
        }],
    }
}

#[test]
fn release_page_of_a_named_version() {
    let config = config_with(Vec::new());
    let catalog = catalog();
    let notes = vec![None, None, Some("Fixed *all* bugs".to_string()), None, None, None];
    let bucket = Some(vec![BucketObject {
        key: "foo/2.0/foo.exe".to_string(),
        last_modified: "2024-01-02T03:04:05Z".to_string(),
        size: 2048,
    }]);
    let distances = vec![Some(5000), Some(100)];
    let page =
        do_get_release("downloads.example", &config, &catalog, "foo", "2.0", Some(&distances), &notes, bucket)
            .ok()
            .unwrap();
    assert_eq!(page.self_name, "Deposit Box");
    assert_eq!(page.theme_name, "dark");
    assert_eq!(page.home_url, "https://home.example");
    assert_eq!(page.default_endpoint_url, "https://us.example");
    assert_eq!((page.product_key.as_str(), page.release_key.as_str()), ("foo", "2.0"));
    assert_eq!(page.product_title, "Foo");
    assert_eq!(page.product_version, "2.0");
    assert_eq!(page.product_version_prev.as_deref(), Some("1.0"));
    assert_eq!(page.product_version_next.as_deref(), Some("3.0-rc1"));
    assert_eq!(page.release_date, "2024-01-01");
    assert_eq!(page.product_icon.as_deref(), Some("foo.png"));
    assert_eq!(page.description.as_deref(), Some("<p><strong>New</strong></p>\n"));
    assert_eq!(page.extra_description.len(), 1);
    assert_eq!(
        page.extra_description.get("Changelog").map(|s| s.as_str()),
        Some("<p>Fixed <em>all</em> bugs</p>\n")
    );
    assert_eq!(page.pre_release, None);
    assert_eq!(page.artifacts.len(), 1);
    assert_eq!(page.artifacts[0].display_subtitle(), "foo.exe");
    assert_eq!(page.artifacts[0].modified_date.as_deref(), Some("2024-01-02 03:04"));
    assert_eq!(
        page.endpoints,
        vec![("us".to_string(), "USA".to_string()), ("eu".to_string(), "Europe".to_string())]
    );
    assert_eq!(page.auto_endpoint, "eu");
    assert!(page.translate_note_text.is_none() && page.translate_note_text_en.is_none());
}

#[test]
fn release_page_of_latest_and_of_a_pre_release() {
    let config = config_with(Vec::new());
    let catalog = catalog();
    let page = do_get_release("x", &config, &catalog, "foo", "latest", None, &Vec::new(), None).ok().unwrap();
    assert_eq!(page.product_version, "2.0");
    assert_eq!(page.release_key, "latest");
    assert_eq!(page.auto_endpoint, "us");
    assert_eq!(page.extra_description.len(), 0);
    let page = do_get_release("x", &config, &catalog, "foo", "3.0-rc1", None, &Vec::new(), None).ok().unwrap();
    assert_eq!(page.pre_release.as_deref(), Some("Release Candidate"));
    assert_eq!(page.product_version_next, None);
    assert_eq!(page.product_version_prev.as_deref(), Some("2.0"));
    assert_eq!(page.description, None);
    let page = do_get_release("x", &config, &catalog, "foo", "1.0", Some(&vec![Some(1)]), &Vec::new(), None)
        .ok()
        .unwrap();
    assert_eq!(page.product_version_prev, None);
    assert_eq!(page.auto_endpoint, "us");
}

#[test]
fn release_page_errors() {
    let config = config_with(Vec::new());
    let catalog = catalog();
    let r = do_get_release("x", &config, &catalog, "nope", "1.0", None, &Vec::new(), None);
    assert!(matches!(r, Err(Status::NotFound)));
    let r = do_get_release("x", &config, &catalog, "foo", "9.9", None, &Vec::new(), None);
    assert!(matches!(r, Err(Status::NotFound)));
    let r = do_get_release("x", &config, &catalog, "empty", "latest", None, &Vec::new(), None);
    assert!(matches!(r, Err(Status::InternalServerError)));
    let info = config_with(vec![
        var("DEPBOX_RELEASE_INFO_ENABLE", "1"),
        var("DEPBOX_RELEASE_INFO_DOMAIN", "info.example"),
    ]);
    let r = do_get_release("info.example", &info, &catalog, "foo", "1.0", None, &Vec::new(), None);
    assert!(matches!(r, Err(Status::NotFound)));
    assert!(do_get_release("other.example", &info, &catalog, "foo", "1.0", None, &Vec::new(), None).is_ok());
}

#[test]
fn version_selection() {
    let catalog = catalog();
    let versions = &catalog.products.get("foo").unwrap().versions;
    assert!(matches!(select_version(versions, &catalog.pre_release_patterns, "latest"), Ok(1)));
    assert!(matches!(select_version(versions, &catalog.pre_release_patterns, "3.0-rc1"), Ok(2)));
    assert!(matches!(select_version(versions, &Vec::new(), "latest"), Ok(2)));
    assert!(matches!(select_version(versions, &Vec::new(), "x"), Err(Status::NotFound)));
}

#[test]
fn product_and_root_pages() {
    let catalog = catalog();
    let plain = config_with(Vec::new());
    let info = config_with(vec![
        var("DEPBOX_RELEASE_INFO_ENABLE", " yes "),
        var("DEPBOX_RELEASE_INFO_DOMAIN", "info.example"),
    ]);
    assert!(!is_release_info(&plain, "info.example"));
    assert!(is_release_info(&info, "info.example"));
    assert!(!is_release_info(&info, "www.example"));
    match get_product("info.example", &info, &catalog, "foo") {
        Ok(GetProductResponder::LatestRelease(name)) => assert_eq!(name, "2.0"),
        _ => panic!("expected the latest release"),
    }
    assert!(matches!(get_product("info.example", &info, &catalog, "empty"), Err(Status::InternalServerError)));
    assert!(matches!(get_product("info.example", &info, &catalog, "nope"), Err(Status::NotFound)));
    match get_product("www.example", &info, &catalog, "foo") {
        Ok(GetProductResponder::Template(page)) => {
            assert_eq!(page.product_key, "foo");
            assert_eq!(page.product.name, "Foo");
            assert_eq!(page.pre_release_patterns.len(), 1);
            assert_eq!(page.default_endpoint_url, "https://us.example");
        }
        _ => panic!("expected the list of releases"),
    }
    let root = get_root("www.example", &info, &catalog).ok().unwrap();
    assert_eq!(root.products.len(), 2);
    assert_eq!(root.theme_name, "dark");
    assert!(matches!(get_root("info.example", &info, &catalog), Err(Status::NotFound)));
}

#[test]
fn banner_and_small_pages() {
    let catalog = catalog();
    let off = config_with(Vec::new());
    let on = config_with(vec![var("DEPBOX_BANNER_ENABLE", "1"), var("DEPBOX_SELF_NAME", "Downloads")]);
    assert!(!off.provide_banner());
    assert!(matches!(get_banner(&off, Some(&catalog)), Err(Status::NotFound)));
    assert_eq!(get_banner(&on, Some(&catalog)).ok(), Some("https://b/url".to_string()));
    assert_eq!(get_banner_png(&on, Some(&catalog)).ok(), Some("https://b/img".to_string()));
    assert!(matches!(get_banner(&on, None), Err(Status::NotFound)));
    let mut without = catalog;
    without.banner = None;
    assert!(matches!(get_banner_png(&on, Some(&without)), Err(Status::NotFound)));
    assert_eq!(favicon(&on), "/static/theme/dark/favicon.ico");
    let page = not_found(&on);
    assert_eq!((page.self_name.as_str(), page.theme_name.as_str(), page.home_url.as_str()), ("Downloads", "dark", "https://home.example"));
    assert_eq!(internal_server_error(&on).self_name, "Downloads");
    assert_eq!(other_error(&off).self_name, "Deposit Box");
    assert_eq!(SelfName::default_value(), "Deposit Box");
    let relayed = relayed_response(vec![1, 2], Some("image/png".to_string()));
    assert_eq!(relayed.body, vec![1, 2]);
    assert_eq!(relayed.headers, vec![("Content-Type".to_string(), "image/png".to_string())]);
    assert!(relayed_response(Vec::new(), None).headers.is_empty());
}

#[test]
fn config_needs_home_url_theme_and_an_endpoint() {
    let good = vec![var("DEPBOX_HOME_URL", "h"), var("DEPBOX_THEME", "t")];
    assert!(Config::<BuiltinArtifactType>::check_env(&endpoints(), &good));
    assert!(!Config::<BuiltinArtifactType>::check_env(&Endpoints::new(Vec::new()).unwrap(), &good));
    assert!(!Config::<BuiltinArtifactType>::check_env(&endpoints(), &vec![var("DEPBOX_THEME", "t")]));
    assert!(!Config::<BuiltinArtifactType>::check_env(&endpoints(), &vec![var("DEPBOX_HOME_URL", "h")]));
    let mut info = good.clone();
    info.push(var("DEPBOX_RELEASE_INFO_ENABLE", "1"));
    assert!(!Config::<BuiltinArtifactType>::check_env(&endpoints(), &info));
    info.push(var("DEPBOX_RELEASE_INFO_DOMAIN", "d"));
    assert!(Config::<BuiltinArtifactType>::check_env(&endpoints(), &info));
    let mut off = good.clone();
    off.push(var("DEPBOX_RELEASE_INFO_ENABLE", " 0\n"));
    assert!(Config::<BuiltinArtifactType>::check_env(&endpoints(), &off));
    assert!(Config::load(ArtifactTypes::<BuiltinArtifactType>::default(), endpoints(), &good, false).is_err());
    assert!(Config::load(ArtifactTypes::<BuiltinArtifactType>::default(), endpoints(), &info, true).is_ok());
    let config = Config::load(ArtifactTypes::<BuiltinArtifactType>::default(), endpoints(), &off, true).ok().unwrap();
    assert!(config.get_release_info().is_none());
    assert!(config.products_yml_path().is_none());
    assert_eq!(config.endpoints().get_all().len(), 2);
    assert_eq!(config.artifact_types().0.len(), 6);
    assert_eq!(config.find_best_location(Some(&vec![Some(9), Some(1)])).key, "eu");
    assert_eq!(config.find_best_location(None).key, "us");
}

#[test]
fn endpoints_are_read_from_the_environment() {
    let vars = vec![
        var("PATH", "/bin"),
        var("DEPBOX_S3_ENDPOINT__2__us__URL", "https://us.example"),
        var("DEPBOX_S3_ENDPOINT__1__eu__DISPLAY_NAME", "Europe"),
        var("DEPBOX_S3_ENDPOINT__2__us__DISPLAY_NAME", "USA"),
        var("DEPBOX_S3_ENDPOINT__1__eu__LOC", "50.1 8.6"),
        var("DEPBOX_S3_ENDPOINT__1__eu__URL", "https://eu.example"),
        var("DEPBOX_S3_ENDPOINT__2__us__LOC", "40 -100"),
        var("DEPBOX_S3_ENDPOINT__0__half__URL", "https://half.example"),
        var("DEPBOX_S3_ENDPOINT__1__as_ia__DISPLAY_NAME", "Asia"),
        var("DEPBOX_S3_ENDPOINT__1__as_ia__URL", "https://asia.example"),
        var("DEPBOX_S3_ENDPOINT__7__as_ia__LOC", "1 100"),
    ];
    let endpoints = do_load_from_env(&vars).ok().unwrap();
    let shown: Vec<(&str, &str, &str, &str)> = endpoints
        .iter()
        .map(|e| (e.key.as_str(), e.display_name.as_str(), e.url.as_str(), e.location.as_str()))
        .collect();
    assert_eq!(
        shown,
        vec![
            ("eu", "Europe", "https://eu.example", "50.1 8.6"),
            ("as_ia", "Asia", "https://asia.example", "1 100"),
            ("us", "USA", "https://us.example", "40 -100"),
        ]
    );
    assert_eq!(Endpoints::load(&vars).ok().unwrap().get_all().len(), 3);
    assert!(do_load_from_env(&Vec::new()).ok().unwrap().is_empty());
}

#[test]
fn order_that_does_not_fit_is_an_error() {
    let vars = vec![var("DEPBOX_S3_ENDPOINT__99999999999999999999999__eu__URL", "u")];
    assert!(matches!(do_load_from_env(&vars), Err(EndpointsError::BadOrder)));
    assert!(matches!(Endpoints::load(&vars), Err(EndpointsError::BadOrder)));
}

#[test]
fn download_link_attributes() {
    let mut urls = SortedMap::new();
    urls.insert("USA".to_string(), "https://us/f".to_string());
    urls.insert("Europe".to_string(), "https://eu/f".to_string());
    assert_eq!(
        endpoint_links(&urls, "USA"),
        "href=\"https://us/f\" data-href-europe=\"https://eu/f\" data-href-usa=\"https://us/f\""
    );
    assert_eq!(
        endpoint_links(&urls, "Asia"),
        "href=\"https://eu/f\" data-href-europe=\"https://eu/f\" data-href-usa=\"https://us/f\""
    );
    assert_eq!(endpoint_links(&SortedMap::new(), "USA"), "href=\"#\"");
}

#[test]
fn markdown_is_rendered_with_the_portal_switches() {
    assert_eq!(markdown("~~old~~ https://example.org"), "<p><del>old</del> <a href=\"https://example.org\">https://example.org</a></p>\n");
    assert_eq!(markdown("<script>x</script>"), "&lt;script&gt;x&lt;/script&gt;\n");
    let mut map = OrderedMap::new();
    map.insert("b".to_string(), "*x*".to_string());
    map.insert("a".to_string(), "y".to_string());
    let html = markdown_values(&map);
    assert_eq!(html.key_at(0), "b");
    assert_eq!(html.value_at(0), "<p><em>x</em></p>\n");
    assert_eq!(html.get("a").map(|s| s.as_str()), Some("<p>y</p>\n"));
}
