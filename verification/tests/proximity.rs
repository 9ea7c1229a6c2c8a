use deposit_box::config::{Endpoint, Endpoints};
use deposit_box::geoip::{
    closest_index, find_best_location, keys_of, measured_keys, sort_by_location, UNKNOWN_DISTANCE,
};
use deposit_box::sorting::stable_order;
use geoutils::Location;

fn endpoint(key: &str, lat: f64, lon: f64) -> (Endpoint, Location) {
    (
        Endpoint {
            key: key.to_string(),
            display_name: key.to_uppercase(),
            url: format!("https://{}.example", key),
            location: format!("{} {}", lat, lon),
        },
        Location::new(lat, lon),
    )
}

fn distances(places: &[Location], client: &Location) -> Vec<Option<u64>> {
    places.iter().map(|p| p.distance_to(client).ok().map(|d| d.meters().abs() as u64)).collect()
}

#[test]
fn best_endpoint_is_the_closest_one() {
    let (a, place_a) = endpoint("a", 0.0, 0.0);
    let (b, place_b) = endpoint("b", 10.0, 10.0);
    let endpoints = vec![a, b];
    let d = distances(&[place_a, place_b], &Location::new(0.0, 0.0));
    assert_eq!(d[0], Some(0));
    assert_eq!(find_best_location(&endpoints, Some(&d)).key, "a");
    let d = distances(&[place_a, place_b], &Location::new(9.0, 9.0));
    assert_eq!(find_best_location(&endpoints, Some(&d)).key, "b");
}

#[test]
fn unknown_client_location_gives_the_first_endpoint() {
    let (a, _) = endpoint("far", 80.0, 170.0);
    let (b, _) = endpoint("near", 0.0, 0.0);
    let endpoints = vec![a, b];
    assert_eq!(find_best_location(&endpoints, None).key, "far");
}

#[test]
fn ties_go_to_the_earlier_endpoint() {
    let (a, _) = endpoint("a", 0.0, 0.0);
    let (b, _) = endpoint("b", 0.0, 0.0);
    let (c, _) = endpoint("c", 0.0, 0.0);
    let endpoints = vec![a, b, c];
    assert_eq!(find_best_location(&endpoints, Some(&vec![Some(5), Some(3), Some(3)])).key, "b");
    assert_eq!(closest_index(&vec![7, 7, 7]), 0);
}

#[test]
fn unmeasured_distance_gives_the_first_endpoint() {
    let (a, _) = endpoint("a", 0.0, 0.0);
    let (b, _) = endpoint("b", 0.0, 0.0);
    let (c, _) = endpoint("c", 0.0, 0.0);
    let endpoints = vec![a, b, c];
    assert_eq!(find_best_location(&endpoints, Some(&vec![None, Some(5), Some(7)])).key, "a");
    assert_eq!(find_best_location(&endpoints, Some(&vec![Some(9), Some(5), None])).key, "a");
    assert_eq!(find_best_location(&endpoints, Some(&vec![None, None, None])).key, "a");
    assert_eq!(find_best_location(&endpoints, Some(&vec![Some(9), Some(5), Some(7)])).key, "b");
    assert_eq!(measured_keys(&vec![Some(9), Some(5)]), Some(vec![9, 5]));
    assert_eq!(measured_keys(&vec![Some(9), None]), None);
    assert_eq!(measured_keys(&Vec::new()), Some(Vec::new()));
}

#[test]
fn distances_that_do_not_fit_give_the_first_endpoint() {
    let (a, _) = endpoint("a", 0.0, 0.0);
    let (b, _) = endpoint("b", 0.0, 0.0);
    let endpoints = vec![a, b];
    assert_eq!(find_best_location(&endpoints, Some(&vec![Some(9)])).key, "a");
    assert_eq!(find_best_location(&endpoints, Some(&vec![Some(9), Some(5), Some(1)])).key, "a");
    assert_eq!(find_best_location(&endpoints, Some(&Vec::new())).key, "a");
    let mut sorted: Vec<Endpoint> = ["a", "b"].iter().map(|k| endpoint(k, 0.0, 0.0).0).collect();
    sort_by_location(&mut sorted, Some(&vec![Some(2), Some(1), Some(0)]));
    let keys: Vec<&str> = sorted.iter().map(|e| e.key.as_str()).collect();
    assert_eq!(keys, vec!["a", "b"]);
}

#[test]
fn unmeasured_distance_is_sorted_as_far_away() {
    assert_eq!(UNKNOWN_DISTANCE, 9999999);
    assert_eq!(keys_of(&vec![Some(12), None, Some(0)]), vec![12, 9999999, 0]);
    let mut endpoints: Vec<Endpoint> = ["a", "b", "c"].iter().map(|k| endpoint(k, 0.0, 0.0).0).collect();
    sort_by_location(&mut endpoints, Some(&vec![None, Some(9999998), Some(10000000)]));
    let keys: Vec<&str> = endpoints.iter().map(|e| e.key.as_str()).collect();
    assert_eq!(keys, vec!["b", "a", "c"]);
}

#[test]
fn sort_orders_by_distance_and_keeps_ties() {
    let mut endpoints: Vec<Endpoint> =
        ["a", "b", "c", "d"].iter().map(|k| endpoint(k, 0.0, 0.0).0).collect();
    sort_by_location(&mut endpoints, Some(&vec![Some(30), Some(10), None, Some(10)]));
    let keys: Vec<&str> = endpoints.iter().map(|e| e.key.as_str()).collect();
    assert_eq!(keys, vec!["b", "d", "a", "c"]);
    assert_eq!(endpoints[0].url, "https://b.example");
    sort_by_location(&mut endpoints, None);
    let keys: Vec<&str> = endpoints.iter().map(|e| e.key.as_str()).collect();
    assert_eq!(keys, vec!["b", "d", "a", "c"]);
}

#[test]
fn stable_order_lists_positions() {
    assert_eq!(stable_order(&vec![3, 1, 2, 1, 0]), vec![4, 1, 3, 2, 0]);
    assert_eq!(stable_order(&Vec::new()), Vec::<usize>::new());
}

#[test]
fn endpoint_set_can_be_ordered_once() {
    let list: Vec<Endpoint> = ["a", "b", "c"].iter().map(|k| endpoint(k, 0.0, 0.0).0).collect();
    let sorted = Endpoints::new(list).unwrap().sorted_by_location(Some(&vec![Some(3), Some(1), Some(2)]));
    let keys: Vec<&str> = sorted.get_all().iter().map(|e| e.key.as_str()).collect();
    assert_eq!(keys, vec!["b", "c", "a"]);
    let same = sorted.sorted_by_location(Some(&vec![Some(1)]));
    let keys: Vec<&str> = same.get_all().iter().map(|e| e.key.as_str()).collect();
    assert_eq!(keys, vec!["b", "c", "a"]);
    let same = same.sorted_by_location(None);
    assert_eq!(same.get_all()[0].key, "b");
}
