use deposit_box::config::{get_checked, get_flag};
use deposit_box::sorted_map::SortedMap;
use deposit_box::text::{
    chars_of, concat3, find_char, first_line, i64_to_string, join, parse_u64, split_nth,
    split_once, starts_with, str_lt, u64_to_string,
};
use deposit_box::translate::{
    content_type, is_lang_supported, is_supported_code, needs_translation, translate_cache_key,
    translated_document, TranslateError, NOTE_TEXT,
};

#[test]
fn joining_and_concatenating() {
    assert_eq!(deposit_box::text::concat("a", "b"), "ab");
    assert_eq!(concat3("a", "", "c"), "ac");
    assert_eq!(join(&vec!["x".to_string(), "y".to_string(), "z".to_string()], ", "), "x, y, z");
    assert_eq!(join(&Vec::new(), ","), "");
    assert_eq!(chars_of("héllo"), vec!['h', 'é', 'l', 'l', 'o']);
}

#[test]
fn numbers_as_text() {
    assert_eq!(u64_to_string(0), "0");
    assert_eq!(u64_to_string(907), "907");
    assert_eq!(u64_to_string(u64::MAX), "18446744073709551615");
    assert_eq!(i64_to_string(-45), "-45");
    assert_eq!(i64_to_string(i64::MIN), "-9223372036854775808");
    assert_eq!(i64_to_string(i64::MAX), "9223372036854775807");
    assert_eq!(parse_u64("0042"), Some(42));
    assert_eq!(parse_u64("18446744073709551615"), Some(u64::MAX));
    assert_eq!(parse_u64("18446744073709551616"), None);
    assert_eq!(parse_u64(""), None);
    assert_eq!(parse_u64("+1"), None);
    assert_eq!(parse_u64("١٢"), None);
}

#[test]
fn searching_and_splitting() {
    assert_eq!(find_char("a/b/c", '/'), Some(1));
    assert_eq!(find_char("äö/ü", '/'), Some(2));
    assert_eq!(find_char("abc", '/'), None);
    assert_eq!(split_once("org/repo/x", '/'), Some(("org", "repo/x")));
    assert_eq!(split_once("äö/ü", '/'), Some(("äö", "ü")));
    assert_eq!(split_once("/", '/'), Some(("", "")));
    assert_eq!(split_once("none", '/'), None);
    assert_eq!(first_line("one\ntwo\nthree"), "one");
    assert_eq!(first_line("single"), "single");
    assert_eq!(first_line("\nrest"), "");
    assert!(starts_with("en-US", "en-"));
    assert!(!starts_with("en", "en-"));
    assert!(starts_with("x", ""));
    assert_eq!(split_nth("a--b--c", "--", 0), Some("a"));
    assert_eq!(split_nth("a--b--c", "--", 2), Some("c"));
    assert_eq!(split_nth("a--b--c", "--", 3), None);
    assert_eq!(split_nth("a---b", "--", 1), Some("-b"));
    assert_eq!(split_nth("--", "--", 1), Some(""));
    assert_eq!(split_nth("abc", "--", 0), Some("abc"));
    assert_eq!(split_nth("ä--ö", "--", 1), Some("ö"));
}

#[test]
fn order_of_strings() {
    assert!(str_lt("Europe", "USA"));
    assert!(str_lt("a", "ab"));
    assert!(!str_lt("ab", "a"));
    assert!(!str_lt("a", "a"));
    assert!(str_lt("", "a"));
    assert!(str_lt("Z", "a"));
    assert!(str_lt("z", "é"));
    let mut map = SortedMap::new();
    for key in ["m", "b", "z", "b", "a"] {
        map.insert(key.to_string(), key.to_uppercase());
    }
    let keys: Vec<&str> = (0..map.len()).map(|i| map.key_at(i)).collect();
    assert_eq!(keys, vec!["a", "b", "m", "z"]);
    assert_eq!(map.get("m"), Some("M"));
    assert_eq!(map.get("q"), None);
    map.insert("m".to_string(), "again".to_string());
    assert_eq!(map.get("m"), Some("again"));
    assert_eq!(map.len(), 4);
}

#[test]
fn environment_lookups() {
    let vars = vec![
        ("A".to_string(), "first".to_string()),
        ("FLAG".to_string(), "  0 ".to_string()),
        ("A".to_string(), "second".to_string()),
        ("ON".to_string(), "false".to_string()),
        ("EMPTY".to_string(), "".to_string()),
    ];
    assert_eq!(get_checked(&vars, "A"), Some("first"));
    assert_eq!(get_checked(&vars, "B"), None);
    assert!(!get_flag(&vars, "FLAG"));
    assert!(get_flag(&vars, "ON"));
    assert!(get_flag(&vars, "EMPTY"));
    assert!(!get_flag(&vars, "MISSING"));
}

#[test]
fn translation_languages() {
    assert!(is_supported_code("de"));
    assert!(is_supported_code("zh-TW"));
    assert!(is_supported_code("cy"));
    assert!(!is_supported_code("xx"));
    assert!(is_lang_supported("de-AT"));
    assert!(is_lang_supported("pt-PT"));
    assert!(!is_lang_supported("d"));
    assert!(!is_lang_supported("xx-YY"));
    assert!(!is_lang_supported(""));
    assert!(!needs_translation("en"));
    assert!(!needs_translation("EN-us"));
    assert!(needs_translation("eng"));
    assert!(needs_translation("de"));
    assert_eq!(content_type(true), "text/html");
    assert_eq!(content_type(false), "text/plain");
    assert_eq!(translate_cache_key("de", true, "<p>x</p>"), "de::true::<p>x</p>");
    assert_eq!(translate_cache_key("fr", false, "x"), "fr::false::x");
    assert!(NOTE_TEXT.starts_with("The description has been automatically translated"));
}

#[test]
fn translated_documents() {
    assert_eq!(translated_document(Some("grüß".as_bytes().to_vec())).ok(), Some("grüß".to_string()));
    assert!(matches!(translated_document(None), Err(TranslateError::NoDocument)));
    assert!(matches!(translated_document(Some(vec![0xff, 0xfe])), Err(TranslateError::Utf8Error)));
}
