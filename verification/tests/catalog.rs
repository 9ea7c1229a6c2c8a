use deposit_box::ordered_map::OrderedMap;
use deposit_box::pre_release::parse_pre_release;
use deposit_box::release_map::ReleaseMap;
use deposit_box::settings::SettingValue;
use deposit_box::storage::{DownloadSpec, PreReleasePatternEntry, VersionInfo};

fn version(date: &str) -> VersionInfo {
    VersionInfo {
        date: date.to_string(),
        description: None,
        changelog: None,
        changelog_section: None,
        downloads: OrderedMap::new(),
    }
}

fn pattern(pattern: &str, display_name: &str) -> PreReleasePatternEntry {
    PreReleasePatternEntry { pattern: pattern.to_string(), display_name: display_name.to_string() }
}

fn releases(names: &[&str]) -> ReleaseMap {
    ReleaseMap::from_entries(names.iter().map(|n| (n.to_string(), version(n))).collect())
}

#[test]
fn latest_is_last_version_when_no_pattern_matches() {
    let map = releases(&["1.0", "2.0"]);
    let patterns = vec![pattern("-rc", "Release Candidate"), pattern("beta", "Beta")];
    let latest = map.latest(&patterns).unwrap();
    assert_eq!(latest.name(), "2.0");
    assert_eq!(latest.info().date, "2.0");
}

#[test]
fn latest_skips_pre_releases() {
    let map = releases(&["1.0", "2.0", "3.0-rc1", "3.0-beta"]);
    let patterns = vec![pattern("-rc", "Release Candidate"), pattern("beta", "Beta")];
    assert_eq!(map.latest(&patterns).unwrap().name(), "2.0");
}

#[test]
fn latest_of_empty_map_is_none() {
    let map = releases(&[]);
    assert!(map.latest(&Vec::new()).is_none());
}

#[test]
fn latest_is_none_when_all_are_pre_releases() {
    let map = releases(&["1.0-rc1", "1.0-rc2"]);
    assert!(map.latest(&vec![pattern("-rc", "RC")]).is_none());
}

#[test]
fn list_runs_from_newest_to_oldest() {
    let map = releases(&["1.0", "2.0", "3.0-rc1"]);
    let patterns = vec![pattern("-rc", "RC")];
    let list = map.list(&patterns);
    let shown: Vec<(&str, bool, bool)> =
        list.iter().map(|e| (e.name, e.is_latest, e.is_pre_release)).collect();
    assert_eq!(shown, vec![("3.0-rc1", false, true), ("2.0", true, false), ("1.0", false, false)]);
}

#[test]
fn versions_are_sorted_by_version_number() {
    let map = releases(&["1.10", "1.2", "1.9.1", "0.3"]);
    let names: Vec<String> = (0..map.map().len()).map(|i| map.map().key_at(i).clone()).collect();
    assert_eq!(names, vec!["0.3", "1.2", "1.9.1", "1.10"]);
}

#[test]
fn equal_versions_keep_their_order() {
    let map = releases(&["2.0", "1.0", "1.0.0", "1"]);
    let names: Vec<String> = (0..map.map().len()).map(|i| map.map().key_at(i).clone()).collect();
    assert_eq!(names, vec!["1.0", "1.0.0", "1", "2.0"]);
}

#[test]
fn get_finds_a_version_by_name() {
    let map = releases(&["1.0", "2.0"]);
    let found = map.get("1.0").unwrap();
    assert_eq!(found.name(), "1.0");
    assert_eq!(found.info().date, "1.0");
    assert!(map.get("3.0").is_none());
}

#[test]
fn parse_pre_release_gives_first_matching_label() {
    let patterns = vec![pattern("^.*-rc\\d+$", "Release Candidate"), pattern("rc", "Other")];
    assert_eq!(parse_pre_release("1.0-rc2", &patterns), Some("Release Candidate"));
    assert_eq!(parse_pre_release("1.0-rcx", &patterns), Some("Other"));
    assert_eq!(parse_pre_release("1.0", &patterns), None);
}

#[test]
fn pattern_that_does_not_compile_matches_nothing() {
    let patterns = vec![pattern("(", "Broken"), pattern("b", "Beta")];
    assert_eq!(parse_pre_release("1.0b", &patterns), Some("Beta"));
    assert_eq!(parse_pre_release("1.0(", &patterns), None);
}

#[test]
fn complex_download_with_unsupported_true_is_unsupported() {
    let mut attributes = OrderedMap::new();
    attributes.insert("unsupported".to_string(), SettingValue::Bool(true));
    let spec = DownloadSpec::Complex { url: "x".to_string(), attributes };
    assert!(spec.is_unsupported());
    assert_eq!(spec.url(), "x");
    assert!(!DownloadSpec::Url("y".to_string()).is_unsupported());
}

#[test]
fn unsupported_needs_the_boolean_true() {
    let mut attributes = OrderedMap::new();
    attributes.insert("unsupported".to_string(), SettingValue::Bool(false));
    assert!(!DownloadSpec::Complex { url: "x".to_string(), attributes }.is_unsupported());
    let mut attributes = OrderedMap::new();
    attributes.insert("unsupported".to_string(), SettingValue::string("true"));
    assert!(!DownloadSpec::Complex { url: "x".to_string(), attributes }.is_unsupported());
    let mut attributes = OrderedMap::new();
    attributes.insert("other".to_string(), SettingValue::Bool(true));
    assert!(!DownloadSpec::Complex { url: "x".to_string(), attributes }.is_unsupported());
    assert!(!DownloadSpec::Null.is_unsupported());
}

#[test]
fn url_of_null_download_is_empty() {
    assert_eq!(DownloadSpec::Null.url(), "");
    assert_eq!(DownloadSpec::Url("file.zip".to_string()).url(), "file.zip");
}

#[test]
fn ordered_map_keeps_insertion_order_and_replaces_in_place() {
    let mut map: OrderedMap<u32> = OrderedMap::new();
    map.insert("b".to_string(), 1);
    map.insert("a".to_string(), 2);
    map.insert("b".to_string(), 3);
    assert_eq!(map.len(), 2);
    assert_eq!(map.key_at(0), "b");
    assert_eq!(*map.value_at(0), 3);
    assert_eq!(map.key_at(1), "a");
    assert_eq!(map.get("a"), Some(&2));
    assert_eq!(map.get("c"), None);
    assert_eq!(map.get_index_of("a"), Some(1));
}
