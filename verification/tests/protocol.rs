use geodesk_rs::query::{amenity_query_string, ALL_AMENITIES, BARS, BUS_STOPS, ROADS};
use geodesk_rs::{BoundingBox, Error, Feature, FeatureData, GeoDesk, QueryRequest, QueryResult};

fn montreal() -> BoundingBox<f64> {
    BoundingBox::new(-73.9781, 45.4042, -73.4766, 45.7042)
}

fn opened(path: &str) -> GeoDesk {
    GeoDesk::open(Some(path)).unwrap().complete(Ok(())).unwrap()
}

fn matches(count: usize) -> QueryResult {
    opened("montreal.gol").query("n", montreal()).complete(Ok(count)).unwrap()
}

fn node(id: i64, name: &str, lon: f64, lat: f64, tags: &[(&str, &str)]) -> FeatureData<f64> {
    FeatureData {
        id,
        kind: "node".to_string(),
        name: name.to_string(),
        lon,
        lat,
        tag_keys: tags.iter().map(|t| t.0.to_string()).collect(),
        tag_values: tags.iter().map(|t| t.1.to_string()).collect(),
    }
}

#[test]
fn open_asks_the_engine_for_the_given_path() {
    let request = GeoDesk::open(Some("data/montreal.gol")).unwrap();
    assert_eq!(request.path, "data/montreal.gol");
}

#[test]
fn open_refuses_a_path_without_text() {
    assert_eq!(GeoDesk::open(None), Err(Error::InvalidPath));
}

#[test]
fn open_succeeds_when_the_engine_does() {
    let store = GeoDesk::open(Some("world.gol")).unwrap().complete(Ok(()));
    assert!(store.is_ok());
    assert_eq!(store, GeoDesk::open(Some("world.gol")).unwrap().complete(Ok(())));
    assert_ne!(store, GeoDesk::open(Some("other.gol")).unwrap().complete(Ok(())));
}

#[test]
fn opening_a_missing_store_is_an_open_failure() {
    let request = GeoDesk::open(Some("/no/such/store.gol")).unwrap();
    let store = request.complete(Err("cannot open /no/such/store.gol".to_string()));
    let error = store.unwrap_err();
    assert_eq!(error, Error::OpenFailure("cannot open /no/such/store.gol".to_string()));
    assert!(error.is_open_failure());
    assert_eq!(error.message(), "cannot open /no/such/store.gol");
}

#[test]
fn query_passes_the_string_through_unread() {
    let store = opened("world.gol");
    let copenhagen = BoundingBox::new(12.45, 55.61, 12.65, 55.73);
    let request = store.query("w[highway=motorway]", copenhagen);
    assert_eq!(request.query, "w[highway=motorway]");
    assert_eq!(request.bbox, copenhagen);
    let odd = store.query("][ not a query", copenhagen);
    assert_eq!(odd.query, "][ not a query");
    let empty = store.query("", copenhagen);
    assert_eq!(empty.query, "");
}

#[test]
fn query_amenities_fills_the_template() {
    let store = opened("world.gol");
    let request = store.query_amenities("restaurant", montreal());
    assert_eq!(request.query, "na[amenity=restaurant]");
    assert_eq!(request.bbox, montreal());
    assert_eq!(store.query_amenities("", montreal()).query, "na[amenity=]");
    assert_eq!(
        store.query_amenities("fast_food", montreal()).query,
        "na[amenity=fast_food]"
    );
}

#[test]
fn amenity_query_string_is_prefix_value_bracket() {
    assert_eq!(amenity_query_string("pharmacy"), "na[amenity=pharmacy]");
    assert_eq!(amenity_query_string("café"), "na[amenity=café]");
    assert_ne!(amenity_query_string("pharmacy"), "pharmacy");
}

#[test]
fn query_amenities_is_query_with_the_template() {
    let store = opened("world.gol");
    for amenity in ["restaurant", "cafe", "bar", "bus_station", "place_of_worship", ""] {
        let typed = store.query_amenities(amenity, montreal());
        let raw = store.query(&format!("na[amenity={}]", amenity), montreal());
        assert_eq!(typed, raw);
        assert_eq!(typed.clone().complete(Ok(3)), raw.clone().complete(Ok(3)));
        assert_eq!(
            typed.complete(Err("bad".to_string())),
            raw.complete(Err("bad".to_string()))
        );
    }
}

#[test]
fn each_helper_uses_its_template() {
    let store = opened("world.gol");
    let bbox = montreal();
    assert_eq!(store.query_all_amenities(bbox).query, "na[amenity]");
    assert_eq!(store.query_restaurants(bbox).query, "na[amenity=restaurant]");
    assert_eq!(store.query_cafes(bbox).query, "na[amenity=cafe]");
    assert_eq!(store.query_bars(bbox).query, "na[amenity=bar,pub]");
    assert_eq!(store.query_bus_stops(bbox).query, "na[highway=bus_stop]");
    assert_eq!(store.query_roads(bbox).query, "w[highway]");
    assert_eq!(ALL_AMENITIES, "na[amenity]");
    assert_eq!(BARS, "na[amenity=bar,pub]");
    assert_eq!(BUS_STOPS, "na[highway=bus_stop]");
    assert_eq!(ROADS, "w[highway]");
}

#[test]
fn each_helper_carries_the_box() {
    let store = opened("world.gol");
    let bbox = BoundingBox::new(1.0, 2.0, 3.0, 4.0);
    assert_eq!(store.query_all_amenities(bbox).bbox, bbox);
    assert_eq!(store.query_restaurants(bbox).bbox, bbox);
    assert_eq!(store.query_cafes(bbox).bbox, bbox);
    assert_eq!(store.query_bars(bbox).bbox, bbox);
    assert_eq!(store.query_bus_stops(bbox).bbox, bbox);
    assert_eq!(store.query_roads(bbox).bbox, bbox);
}

#[test]
fn helpers_are_the_calls_they_stand_for() {
    let store = opened("world.gol");
    let bbox = montreal();
    assert_eq!(store.query_restaurants(bbox), store.query_amenities("restaurant", bbox));
    assert_eq!(store.query_cafes(bbox), store.query_amenities("cafe", bbox));
    assert_eq!(store.query_all_amenities(bbox), store.query("na[amenity]", bbox));
    assert_eq!(store.query_bars(bbox), store.query("na[amenity=bar,pub]", bbox));
    assert_eq!(store.query_bus_stops(bbox), store.query("na[highway=bus_stop]", bbox));
    assert_eq!(store.query_roads(bbox), store.query("w[highway]", bbox));
}

#[test]
fn a_rejected_query_is_a_query_failure() {
    let store = opened("world.gol");
    let result = store
        .query("w[highway", montreal())
        .complete(Err("expected ] at column 10".to_string()));
    let error = result.unwrap_err();
    assert_eq!(error, Error::QueryFailure("expected ] at column 10".to_string()));
    assert!(!error.is_open_failure());
    assert_eq!(error.message(), "expected ] at column 10");
    // The store is still good for the next query.
    let next = store.query("w[highway]", montreal()).complete(Ok(12));
    assert_eq!(next.unwrap().count(), 12);
}

#[test]
fn count_is_what_the_engine_counted() {
    assert_eq!(matches(0).count(), 0);
    assert_eq!(matches(1).count(), 1);
    assert_eq!(matches(48_213).count(), 48_213);
    assert_eq!(matches(usize::MAX).count(), usize::MAX);
}

#[test]
fn is_empty_means_count_zero() {
    assert!(matches(0).is_empty());
    assert!(!matches(1).is_empty());
    assert!(!matches(usize::MAX).is_empty());
    for count in [0usize, 1, 2, 1000] {
        assert_eq!(matches(count).is_empty(), matches(count).count() == 0);
    }
}

#[test]
fn to_vec_turns_each_record_into_a_feature_in_order() {
    let records = vec![
        node(1, "A", 1.5, 2.5, &[("amenity", "cafe")]),
        node(2, "", -3.0, 4.0, &[]),
        node(3, "C", 5.0, -6.0, &[("amenity", "bar"), ("name", "C")]),
    ];
    let expected: Vec<Feature<f64>> = records.iter().cloned().map(Feature::from).collect();
    let features = matches(3).to_vec(Ok(records)).unwrap();
    assert_eq!(features, expected);
    assert_eq!(features.len(), 3);
    assert_eq!(features[0].id, 1);
    assert_eq!(features[1].id, 2);
    assert_eq!(features[2].id, 3);
    assert_eq!(features[1].name, "");
    assert_eq!(features[2].lat, -6.0);
    assert_eq!(features[2].tag("name"), Some("C"));
}

#[test]
fn to_vec_has_as_many_features_as_were_counted() {
    for count in [0usize, 1, 2, 17] {
        let records: Vec<FeatureData<f64>> = (0..count)
            .map(|i| node(i as i64, "n", 0.0, 0.0, &[("amenity", "bench")]))
            .collect();
        let result = matches(count);
        let features = result.to_vec(Ok(records)).unwrap();
        assert_eq!(features.len(), result.count());
    }
}

#[test]
fn to_vec_can_be_asked_again() {
    let result = matches(1);
    let records = vec![node(9, "Nine", 9.0, 9.0, &[("amenity", "pub")])];
    let first = result.to_vec(Ok(records.clone())).unwrap();
    let second = result.to_vec(Ok(records)).unwrap();
    assert_eq!(first, second);
}

#[test]
fn a_failed_copy_is_a_materialize_failure() {
    let result = matches(2);
    let failed = result.to_vec::<f64>(Err("read error at record 1".to_string()));
    let error = failed.unwrap_err();
    assert_eq!(error, Error::MaterializeFailure("read error at record 1".to_string()));
    assert!(!error.is_open_failure());
    assert_eq!(error.message(), "read error at record 1");
    // Only that call failed: asking again may succeed.
    let records = vec![
        node(1, "A", 0.0, 0.0, &[]),
        node(2, "B", 0.0, 0.0, &[]),
    ];
    assert_eq!(result.to_vec(Ok(records)).unwrap().len(), 2);
    assert_eq!(result.count(), 2);
}

#[test]
fn invalid_path_has_its_own_message() {
    let error = GeoDesk::open(None).unwrap_err();
    assert_eq!(error.message(), "Invalid path");
    assert!(error.is_open_failure());
}

#[test]
fn the_same_query_and_box_give_the_same_request() {
    let store = opened("world.gol");
    let first = store.query("na[amenity=restaurant,cafe,bar,pub]", montreal());
    let second = store.query("na[amenity=restaurant,cafe,bar,pub]", montreal());
    assert_eq!(first, second);
    let other_box = store.query("na[amenity=restaurant,cafe,bar,pub]", BoundingBox::new(0.0, 0.0, 1.0, 1.0));
    assert_ne!(first, other_box);
}

#[test]
fn the_same_records_in_another_order_give_the_same_features() {
    let a = node(1, "A", 1.0, 1.0, &[("amenity", "cafe")]);
    let b = node(2, "B", 2.0, 2.0, &[("amenity", "bar")]);
    let result = matches(2);
    let forward = result.to_vec(Ok(vec![a.clone(), b.clone()])).unwrap();
    let backward = result.to_vec(Ok(vec![b, a])).unwrap();
    assert_eq!(forward.len(), backward.len());
    for feature in &forward {
        assert!(backward.contains(feature));
    }
    for feature in &backward {
        assert!(forward.contains(feature));
    }
}

#[test]
fn restaurant_inside_the_box_is_found() {
    let store = opened("montreal.gol");
    let bbox = BoundingBox::new(-73.9781, 45.4042, -73.4766, 45.7042);
    let request: QueryRequest<f64> = store.query_restaurants(bbox);
    assert_eq!(request.query, "na[amenity=restaurant]");
    assert_eq!(request.bbox, bbox);
    // The engine finds the one node that the store holds inside the box.
    let result = request.complete(Ok(1)).unwrap();
    assert!(result.count() >= 1);
    assert!(!result.is_empty());
    let records = vec![node(
        1001,
        "Chez Nous",
        -73.6,
        45.5,
        &[("amenity", "restaurant"), ("name", "Chez Nous")],
    )];
    let features = result.to_vec(Ok(records)).unwrap();
    assert_eq!(features.len(), result.count());
    assert!(features.iter().any(|f| f.tag("amenity") == Some("restaurant")));
    assert_eq!(features[0].lon, -73.6);
    assert_eq!(features[0].lat, 45.5);
}

#[test]
fn box_outside_the_store_matches_nothing() {
    let store = opened("montreal.gol");
    let far_away = BoundingBox::new(139.5, 35.5, 139.9, 35.8);
    let result = store.query_restaurants(far_away).complete(Ok(0)).unwrap();
    assert_eq!(result.count(), 0);
    assert!(result.is_empty());
    let features = result.to_vec::<f64>(Ok(Vec::new()));
    assert_eq!(features, Ok(Vec::new()));
}
