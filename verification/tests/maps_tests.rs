use spin_apps::maps::{
    has_street_image, nearby_search_url, photo_count, photo_url, photo_urls, place_details_url,
    street_view_image_url, street_view_metadata_url,
};

#[test]
fn nearby_search_url_is_exact() {
    assert_eq!(
        nearby_search_url("52.52", "13.405", "KEY"),
        "https://maps.googleapis.com/maps/api/place/nearbysearch/json?location=52.52,13.405&radius=50000&type=cafe&keyword=coffee&key=KEY"
    );
}

#[test]
fn place_details_url_is_exact() {
    assert_eq!(
        place_details_url("ChIJ123", "KEY"),
        "https://maps.googleapis.com/maps/api/place/details/json?place_id=ChIJ123&fields=photos,formatted_address&key=KEY"
    );
}

#[test]
fn street_view_urls_are_exact() {
    assert_eq!(
        street_view_metadata_url("1.5", "-2", "K"),
        "https://maps.googleapis.com/maps/api/streetview/metadata?size=640x640&location=1.5,-2&key=K"
    );
    assert_eq!(
        street_view_image_url("1.5", "-2"),
        "https://maps.googleapis.com/maps/api/streetview?size=640x640&return_error_codes=true&location=1.5,-2&key="
    );
}

#[test]
fn street_image_unless_zero_result() {
    assert!(!has_street_image(&Some("ZERO_RESULT".to_string())));
    assert!(has_street_image(&Some("OK".to_string())));
    assert!(has_street_image(&Some("ZERO_RESULTS".to_string())));
    assert!(has_street_image(&None));
}

#[test]
fn photo_url_is_exact() {
    assert_eq!(
        photo_url("ref1"),
        "https://maps.googleapis.com/maps/api/place/photo?maxwidth=640&photoreference=ref1&key="
    );
}

#[test]
fn at_most_four_photos() {
    assert_eq!(photo_count(0), 0);
    assert_eq!(photo_count(3), 3);
    assert_eq!(photo_count(4), 4);
    assert_eq!(photo_count(10), 4);
}

#[test]
fn photo_urls_follow_the_references() {
    let refs: Vec<String> = ["a", "b", "c", "d", "e", "f"].iter().map(|s| s.to_string()).collect();
    let urls = photo_urls(&refs);
    assert_eq!(urls.len(), 4);
    for (u, r) in urls.iter().zip(refs.iter()) {
        assert_eq!(u, &photo_url(r));
    }
    assert!(photo_urls(&vec![]).is_empty());
    assert_eq!(photo_urls(&vec!["x".to_string()]), vec![photo_url("x")]);
}
