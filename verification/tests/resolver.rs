use std::cell::RefCell;

use deposit_box::cache::{Claim, TimedCache};
use deposit_box::config::Endpoint;
use deposit_box::storage::{
    config_cache_key, failover_next, failover_start, products_url, try_with_endpoints, FailoverStep,
    Storage, StorageError, PRODUCTS_YML,
};

fn endpoint(key: &str, url: &str) -> Endpoint {
    Endpoint {
        key: key.to_string(),
        display_name: key.to_uppercase(),
        url: url.to_string(),
        location: "0 0".to_string(),
    }
}

fn three() -> Vec<Endpoint> {
    vec![endpoint("a", "https://a"), endpoint("b", "https://b"), endpoint("c", "https://c")]
}

#[test]
fn first_endpoint_that_succeeds_wins_and_later_ones_are_not_asked() {
    let asked = RefCell::new(Vec::new());
    let r = try_with_endpoints(&three(), |e: &Endpoint| {
        asked.borrow_mut().push(e.key.clone());
        if e.key == "a" {
            Err(StorageError::Reqwest("down".to_string()))
        } else {
            Ok(format!("catalog of {}", e.key))
        }
    });
    assert_eq!(r.ok(), Some("catalog of b".to_string()));
    assert_eq!(*asked.borrow(), vec!["a".to_string(), "b".to_string()]);
}

#[test]
fn first_endpoint_is_asked_first() {
    let asked = RefCell::new(0);
    let r = try_with_endpoints(&three(), |e: &Endpoint| -> Result<String, StorageError> {
        *asked.borrow_mut() += 1;
        Ok(e.key.clone())
    });
    assert_eq!(r.ok(), Some("a".to_string()));
    assert_eq!(*asked.borrow(), 1);
}

#[test]
fn when_all_endpoints_fail_the_last_error_is_returned() {
    let asked = RefCell::new(0);
    let r: Result<String, StorageError> = try_with_endpoints(&three(), |e: &Endpoint| {
        *asked.borrow_mut() += 1;
        if e.key == "b" {
            Err(StorageError::Yaml(format!("bad document at {}", e.key)))
        } else {
            Err(StorageError::Reqwest(format!("no answer from {}", e.key)))
        }
    });
    match r {
        Err(StorageError::Reqwest(message)) => assert_eq!(message, "no answer from c"),
        _ => panic!("expected the error of the last endpoint"),
    }
    assert_eq!(*asked.borrow(), 3);
}

#[test]
fn parse_errors_count_as_failures_too() {
    let r = try_with_endpoints(&three(), |e: &Endpoint| {
        if e.key == "c" {
            Ok(7)
        } else {
            Err(StorageError::Yaml("not yaml".to_string()))
        }
    });
    assert_eq!(r.ok(), Some(7));
}

#[test]
fn failover_steps() {
    let start: FailoverStep<u8, &str> = failover_start(2);
    assert!(matches!(start, FailoverStep::Fetch(0)));
    assert!(matches!(failover_next::<u8, &str>(2, 0, Err("x")), FailoverStep::Fetch(1)));
    assert!(matches!(failover_next::<u8, &str>(2, 1, Err("y")), FailoverStep::Done(Err("y"))));
    assert!(matches!(failover_next::<u8, &str>(2, 0, Ok(5)), FailoverStep::Done(Ok(5))));
}

#[test]
fn catalog_url_and_cache_key() {
    assert_eq!(PRODUCTS_YML, "products.yml");
    assert_eq!(products_url(&endpoint("a", "https://a.example")), "https://a.example/products.yml");
    assert_eq!(config_cache_key(&three()), "https://a,https://b,https://c");
    assert_eq!(config_cache_key(&Vec::new()), "");
    assert_eq!(config_cache_key(&vec![endpoint("a", "u")]), "u");
}

#[test]
fn two_callers_within_the_ttl_trigger_one_fetch() {
    let mut cache: TimedCache<String> = TimedCache::new(900);
    let key = "https://a,https://b";
    assert_eq!(cache.claim(key, 1000), Claim::Fetch);
    // A second caller arrives while the first is fetching.
    assert_eq!(cache.claim(key, 1001), Claim::Wait);
    assert!(cache.peek(key, 1001).is_none());
    cache.complete(key, Some("catalog".to_string()), 1005);
    assert_eq!(cache.claim(key, 1006), Claim::Hit);
    assert_eq!(cache.peek(key, 1006).map(|s| s.as_str()), Some("catalog"));
    assert_eq!(cache.claim(key, 1904), Claim::Hit);
}

#[test]
fn expired_entry_is_fetched_again() {
    let mut cache: TimedCache<u32> = TimedCache::new(900);
    assert_eq!(cache.claim("k", 0), Claim::Fetch);
    cache.complete("k", Some(1), 10);
    assert_eq!(cache.peek("k", 909), Some(&1));
    assert_eq!(cache.peek("k", 910), None);
    assert_eq!(cache.claim("k", 910), Claim::Fetch);
    assert_eq!(cache.claim("k", 911), Claim::Wait);
    cache.complete("k", Some(2), 912);
    assert_eq!(cache.peek("k", 912), Some(&2));
}

#[test]
fn failed_fetch_is_not_cached() {
    let mut cache: TimedCache<u32> = TimedCache::new(900);
    assert_eq!(cache.claim("k", 0), Claim::Fetch);
    cache.complete("k", None, 5);
    assert_eq!(cache.peek("k", 6), None);
    assert_eq!(cache.claim("k", 6), Claim::Fetch);
}

#[test]
fn keys_are_cached_apart() {
    let mut cache: TimedCache<u32> = TimedCache::new(10);
    assert_eq!(cache.claim("a", 0), Claim::Fetch);
    assert_eq!(cache.claim("b", 0), Claim::Fetch);
    cache.complete("a", Some(1), 1);
    assert_eq!(cache.claim("a", 2), Claim::Hit);
    assert_eq!(cache.claim("b", 2), Claim::Wait);
}

#[test]
fn bucket_list_error_is_reported_once() {
    let endpoints = deposit_box::config::Endpoints::new(three()).unwrap();
    let mut storage = Storage::new(endpoints).ok().unwrap();
    assert_eq!(storage.endpoints().get_all().len(), 3);
    assert!(storage.note_bucket_list_error());
    assert!(!storage.note_bucket_list_error());
}
