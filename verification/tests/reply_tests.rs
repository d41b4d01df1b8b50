use spin_apps::json::{member, member_str, Json};
use spin_apps::maps::{place_details, street_view_status};
use spin_apps::mastodon::media_id;

#[test]
fn place_details_reads_address_and_first_four_references() {
    let body = br#"{"result":{"formatted_address":"1 Main St","photos":[
        {"photo_reference":"a"},{"photo_reference":"b"},{"photo_reference":"c"},
        {"photo_reference":"d"},{"photo_reference":"e"}]},"status":"OK"}"#;
    let (address, refs) = place_details(body).unwrap();
    assert_eq!(address, "1 Main St");
    assert_eq!(refs, vec!["a", "b", "c", "d"]);
}

#[test]
fn place_details_with_few_or_no_photos() {
    let body = br#"{"result":{"formatted_address":"X","photos":[{"photo_reference":"only"}]}}"#;
    assert_eq!(place_details(body), Some(("X".to_string(), vec!["only".to_string()])));
    let body = br#"{"result":{"formatted_address":"X","photos":[]}}"#;
    assert_eq!(place_details(body), Some(("X".to_string(), vec![])));
}

#[test]
fn place_details_fails_where_a_field_is_missing() {
    assert_eq!(place_details(b"not json"), None);
    assert_eq!(place_details(br#"{"result":{"photos":[]}}"#), None);
    assert_eq!(place_details(br#"{"result":{"formatted_address":"X"}}"#), None);
    assert_eq!(place_details(br#"{"result":{"formatted_address":5,"photos":[]}}"#), None);
    assert_eq!(
        place_details(br#"{"result":{"formatted_address":"X","photos":[{"photo_reference":1}]}}"#),
        None
    );
    // only the photos that are used need a reference
    let body = br#"{"result":{"formatted_address":"X","photos":[
        {"photo_reference":"a"},{"photo_reference":"b"},{"photo_reference":"c"},
        {"photo_reference":"d"},{"width":3}]}}"#;
    assert_eq!(place_details(body).unwrap().1.len(), 4);
}

#[test]
fn street_view_status_reads_the_status() {
    assert_eq!(street_view_status(br#"{"status":"ZERO_RESULT"}"#), Some(Some("ZERO_RESULT".to_string())));
    assert_eq!(street_view_status(br#"{"status":7}"#), Some(None));
    assert_eq!(street_view_status(br#"[1,2]"#), Some(None));
    assert_eq!(street_view_status(b"{"), None);
}

#[test]
fn media_id_reads_the_string_id() {
    assert_eq!(media_id(br#"{"id":"1234","type":"image"}"#), Some("1234".to_string()));
    assert_eq!(media_id(br#"{"id":1234}"#), None);
    assert_eq!(media_id(br#"{"type":"image"}"#), None);
    assert_eq!(media_id(b"oops"), None);
    assert_eq!(media_id(&[0xff, 0xfe]), None);
}

#[test]
fn members_are_found_by_name() {
    let j = Json::Object(vec![
        ("a".to_string(), Json::Str("x".to_string())),
        ("b".to_string(), Json::Null),
    ]);
    assert!(matches!(member(&j, "b"), Some(Json::Null)));
    assert!(member(&j, "c").is_none());
    assert_eq!(member_str(&j, "a"), Some(&"x".to_string()));
    assert_eq!(member_str(&j, "b"), None);
    assert!(member(&Json::Array(vec![]), "a").is_none());
}

use spin_apps::mastodon::status_body;
use spin_apps::places::nearby_results;

#[test]
fn nearby_results_read_each_result() {
    let body = br#"{"results":[
        {"name":"Cafe A","place_id":"A1","rating":4.5,"user_ratings_total":120,"types":["cafe",3,"food"]},
        {"name":"Bar B","place_id":"B1","types":["bar"]},
        {"name":7,"rating":"high","types":[]}
    ],"status":"OK"}"#;
    let v = nearby_results(body).unwrap();
    assert_eq!(v.len(), 3);
    assert_eq!(v[0].types, vec!["cafe", "food"]);
    assert_eq!(v[0].rating.as_deref(), Some("4.5"));
    assert!(v[0].has_rating);
    assert_eq!(v[0].user_ratings_total.as_deref(), Some("120"));
    assert_eq!(v[0].place_id.as_deref(), Some("A1"));
    assert_eq!(v[0].name.as_deref(), Some("Cafe A"));
    assert_eq!(v[1].types, vec!["bar"]);
    assert_eq!(v[1].rating, None);
    assert!(!v[1].has_rating);
    assert_eq!(v[1].user_ratings_total, None);
    assert_eq!(v[2].name, None);
    assert_eq!(v[2].place_id, None);
    assert_eq!(v[2].rating, None);
    assert!(v[2].has_rating);
}

#[test]
fn nearby_results_fail_where_the_original_panics() {
    assert!(nearby_results(b"{").is_none());
    assert!(nearby_results(br#"{"status":"ZERO_RESULTS"}"#).is_none());
    assert!(nearby_results(br#"{"results":[{"name":"x"}]}"#).is_none());
    assert!(nearby_results(br#"{"results":[{"types":"cafe"}]}"#).is_none());
    assert_eq!(nearby_results(br#"{"results":[]}"#).map(|v| v.len()), Some(0));
}

#[test]
fn status_body_is_the_json_of_the_post() {
    let ids = vec!["11".to_string(), "22".to_string()];
    assert_eq!(
        status_body("Cafe \"X\"\n\u{2605}", &ids).unwrap(),
        r#"{"language":"eng","media_ids":["11","22"],"status":"Cafe \"X\"\n★","visibility":"public"}"#
    );
    assert_eq!(
        status_body("", &vec![]).unwrap(),
        r#"{"language":"eng","media_ids":[],"status":"","visibility":"public"}"#
    );
}
