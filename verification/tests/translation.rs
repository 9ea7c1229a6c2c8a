use std::cell::RefCell;

use deposit_box::artifacttype::builtin::BuiltinArtifactType;
use deposit_box::artifacttype::ArtifactTypes;
use deposit_box::config::{CatalogSource, Config, Endpoint, Endpoints};
use deposit_box::ordered_map::OrderedMap;
use deposit_box::release_map::ReleaseMap;
use deposit_box::routes::{get_release, get_release_en, Status};
use deposit_box::storage::{
    bucket_location, Banner, Product, ProductsConfig, StorageError, VersionInfo,
};
use deposit_box::text::remove_all;
use deposit_box::translate::{
    do_translate, translate_artifact_release, translate_html, translate_str, TranslateConfig,
    TranslateError, NOTE_TEXT,
};

fn upper(_lang: &str, text: &str, is_html: bool) -> Result<String, TranslateError> {
    if text == "fail" {
        Err(TranslateError::AwsError("refused".to_string()))
    } else if is_html {
        Ok(format!("<{}>", text.to_uppercase()))
    } else {
        Ok(text.to_uppercase())
    }
}

fn extra(entries: &[(&str, &str)]) -> OrderedMap<String> {
    let mut map = OrderedMap::new();
    for (k, v) in entries {
        map.insert(k.to_string(), v.to_string());
    }
    map
}

fn entries(map: &OrderedMap<String>) -> Vec<(String, String)> {
    (0..map.len()).map(|i| (map.key_at(i).clone(), map.value_at(i).clone())).collect()
}

#[test]
fn english_is_not_translated() {
    let mut description = Some("d".to_string());
    let mut extra_description = extra(&[("Changelog", "c")]);
    let (mut note_en, mut note) = (None, None);
    let r = translate_artifact_release("en-GB", upper, &mut description, &mut extra_description, &mut note_en, &mut note);
    assert!(r.is_ok());
    assert_eq!(description.as_deref(), Some("d"));
    assert_eq!(entries(&extra_description), vec![("Changelog".to_string(), "c".to_string())]);
    assert!(note_en.is_none() && note.is_none());
}

#[test]
fn other_languages_are_translated() {
    let mut description = Some("d".to_string());
    let mut extra_description = extra(&[("Changelog", "c"), ("Notes", "n")]);
    let (mut note_en, mut note) = (None, None);
    let r = translate_artifact_release("de", upper, &mut description, &mut extra_description, &mut note_en, &mut note);
    assert!(r.is_ok());
    assert_eq!(description.as_deref(), Some("<D>"));
    assert_eq!(
        entries(&extra_description),
        vec![("CHANGELOG".to_string(), "<C>".to_string()), ("NOTES".to_string(), "<N>".to_string())]
    );
    assert_eq!(note_en.as_deref(), Some(NOTE_TEXT));
    assert_eq!(note, Some(NOTE_TEXT.to_uppercase()));
}

#[test]
fn failed_translation_leaves_the_extra_descriptions() {
    let mut description = None;
    let mut extra_description = extra(&[("Changelog", "c"), ("Notes", "fail")]);
    let (mut note_en, mut note) = (None, None);
    let r = translate_artifact_release("de", upper, &mut description, &mut extra_description, &mut note_en, &mut note);
    assert!(matches!(r, Err(TranslateError::AwsError(ref m)) if m == "refused"));
    assert_eq!(
        entries(&extra_description),
        vec![("Changelog".to_string(), "c".to_string()), ("Notes".to_string(), "fail".to_string())]
    );
    assert!(description.is_none());
    assert!(note.is_some());
}

#[test]
fn single_translations_go_through_the_service() {
    let sent = RefCell::new(Vec::new());
    let send = |lang: &str, content_type: &str, input: &str| -> Result<Option<Vec<u8>>, TranslateError> {
        sent.borrow_mut().push((lang.to_string(), content_type.to_string(), input.to_string()));
        Ok(Some(format!("[{}]", input).into_bytes()))
    };
    assert_eq!(translate_str("de", "hello", send).ok(), Some("[hello]".to_string()));
    assert_eq!(translate_html("fr-CA", "<p>x</p>", send).ok(), Some("[<p>x</p>]".to_string()));
    assert!(matches!(translate_str("xx", "hello", send), Err(TranslateError::UnsupportedLang)));
    assert!(matches!(do_translate("d", "hello", true, send), Err(TranslateError::UnsupportedLang)));
    assert_eq!(
        *sent.borrow(),
        vec![
            ("de".to_string(), "text/plain".to_string(), "hello".to_string()),
            ("fr-CA".to_string(), "text/html".to_string(), "<p>x</p>".to_string()),
        ]
    );
    let none = |_: &str, _: &str, _: &str| -> Result<Option<Vec<u8>>, TranslateError> { Ok(None) };
    assert!(matches!(translate_str("de", "x", none), Err(TranslateError::NoDocument)));
    let broken = |_: &str, _: &str, _: &str| -> Result<Option<Vec<u8>>, TranslateError> { Ok(Some(vec![0xc0])) };
    assert!(matches!(translate_html("de", "x", broken), Err(TranslateError::Utf8Error)));
    let failing = |_: &str, _: &str, _: &str| -> Result<Option<Vec<u8>>, TranslateError> {
        Err(TranslateError::AwsError("down".to_string()))
    };
    assert!(matches!(translate_str("de", "x", failing), Err(TranslateError::AwsError(ref m)) if m == "down"));
}

fn endpoint(url: &str) -> Endpoint {
    Endpoint { key: "k".to_string(), display_name: "K".to_string(), url: url.to_string(), location: "0 0".to_string() }
}

#[test]
fn bucket_is_the_first_label_of_the_host() {
    let (bucket, host) = bucket_location(&endpoint("https://files.s3.example.org")).ok().unwrap();
    assert_eq!((bucket.as_str(), host.as_str()), ("files", "s3.example.org"));
    let (bucket, host) = bucket_location(&endpoint("http://a.b")).ok().unwrap();
    assert_eq!((bucket.as_str(), host.as_str()), ("a", "b"));
    assert!(matches!(bucket_location(&endpoint("https://localhost")), Err(StorageError::NoBucketFound)));
    assert_eq!(remove_all("http://http://x/http://", "http://"), "x/");
    assert_eq!(remove_all("aaa", "aa"), "a");
    assert_eq!(remove_all("abc", "x"), "abc");
}

fn config(vars: Vec<(&str, &str)>) -> Config<BuiltinArtifactType> {
    let mut all = vec![
        ("DEPBOX_HOME_URL".to_string(), "https://home.example".to_string()),
        ("DEPBOX_THEME".to_string(), "dark".to_string()),
    ];
    all.extend(vars.into_iter().map(|(k, v)| (k.to_string(), v.to_string())));
    let endpoints = Endpoints::new(vec![endpoint("https://eu.example")]).unwrap();
    Config::load(ArtifactTypes::default(), endpoints, &all, true).ok().unwrap()
}

fn catalog() -> ProductsConfig {
    let info = VersionInfo {
        date: "2024-01-01".to_string(),
        description: None,
        changelog: None,
        changelog_section: None,
        downloads: OrderedMap::new(),
    };
    let mut products = OrderedMap::new();
    products.insert(
        "foo".to_string(),
        Product::new("Foo".to_string(), ReleaseMap::from_entries(vec![("1.0".to_string(), info)])),
    );
    ProductsConfig {
        products,
        banner: Some(Banner { url_file: "u".to_string(), image_file: "i".to_string() }),
        pre_release_patterns: Vec::new(),
    }
}

#[test]
fn release_is_translated_for_readers_of_other_languages() {
    let config = config(Vec::new());
    let catalog = catalog();
    let answer = get_release("x", Some("de-DE"), &config, &catalog, "foo", "latest", None, &Vec::new(), None)
        .ok()
        .unwrap();
    assert_eq!(answer.translate_to.as_deref(), Some("de-DE"));
    assert_eq!(answer.page.product_version, "1.0");
    let answer = get_release("x", Some("en-US"), &config, &catalog, "foo", "1.0", None, &Vec::new(), None)
        .ok()
        .unwrap();
    assert_eq!(answer.translate_to, None);
    let answer = get_release("x", None, &config, &catalog, "foo", "1.0", None, &Vec::new(), None).ok().unwrap();
    assert_eq!(answer.translate_to, None);
    let answer = get_release_en("x", &config, &catalog, "foo", "1.0", None, &Vec::new(), None).ok().unwrap();
    assert_eq!(answer.translate_to, None);
    assert_eq!(answer.page.release_date, "2024-01-01");
    assert!(matches!(
        get_release("x", Some("de"), &config, &catalog, "foo", "2.0", None, &Vec::new(), None),
        Err(Status::NotFound)
    ));
    assert!(matches!(
        get_release_en("x", &config, &catalog, "bar", "1.0", None, &Vec::new(), None),
        Err(Status::NotFound)
    ));
}

#[test]
fn catalog_source_and_banner_files() {
    let plain = config(Vec::new());
    assert!(matches!(plain.get_config(), CatalogSource::Endpoints));
    let dev = config(vec![("DEPBOX_OVERWRITE_PRODUCTS_YML_PATH", "/tmp/products.yml")]);
    assert!(matches!(dev.get_config(), CatalogSource::File(ref path) if path == "/tmp/products.yml"));
    let catalog = catalog();
    assert_eq!(plain.get_banner_url_url(Some(&catalog)).as_deref(), Some("u"));
    assert_eq!(plain.get_banner_png_url(Some(&catalog)).as_deref(), Some("i"));
    assert_eq!(plain.get_banner_url_url(None), None);
}

#[test]
fn translation_needs_both_credentials() {
    let id = ("DEPBOX_TRANSLATE_AWS_ACCESS_KEY_ID".to_string(), "id".to_string());
    let key = ("DEPBOX_TRANSLATE_AWS_SECRET_ACCESS_KEY".to_string(), "secret".to_string());
    let both = TranslateConfig::get(&vec![id.clone(), key.clone()]).unwrap();
    assert_eq!((both.key_id.as_str(), both.secret_access_key.as_str()), ("id", "secret"));
    assert!(TranslateConfig::get(&vec![id]).is_none());
    assert!(TranslateConfig::get(&vec![key]).is_none());
    assert!(TranslateConfig::get(&Vec::new()).is_none());
}
