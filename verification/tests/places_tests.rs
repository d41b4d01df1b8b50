use spin_apps::places::{
    filter_places, is_excluded_place, is_excluded_type, is_place_kept, pick_place, PlaceCandidate,
};

fn place(types: &[&str], rated_well: bool) -> PlaceCandidate {
    PlaceCandidate { types: types.iter().map(|t| t.to_string()).collect(), rated_well }
}

#[test]
fn excluded_types_are_the_nine_listed() {
    for t in [
        "hotel",
        "lodge",
        "lodging",
        "gas_station",
        "convenience_store",
        "grocery_or_supermarket",
        "night_club",
        "restaurant",
        "bar",
    ] {
        assert!(is_excluded_type(t), "{t}");
    }
    for t in ["cafe", "food", "bakery", "Bar", "bars", "", "point_of_interest"] {
        assert!(!is_excluded_type(t), "{t}");
    }
}

#[test]
fn one_excluded_type_rules_a_place_out() {
    assert!(is_excluded_place(&vec!["cafe".to_string(), "bar".to_string()]));
    assert!(!is_excluded_place(&vec!["cafe".to_string(), "food".to_string()]));
    assert!(!is_excluded_place(&vec![]));
}

#[test]
fn a_place_is_kept_when_not_excluded_and_rated_well() {
    assert!(is_place_kept(&place(&["cafe"], true)));
    assert!(!is_place_kept(&place(&["cafe"], false)));
    assert!(!is_place_kept(&place(&["cafe", "restaurant"], true)));
}

#[test]
fn filter_keeps_order() {
    let places = vec![
        place(&["cafe"], true),
        place(&["lodging"], true),
        place(&["bakery", "cafe"], true),
        place(&["cafe"], false),
        place(&[], true),
    ];
    assert_eq!(filter_places(&places), vec![0, 2, 4]);
}

#[test]
fn picked_place_is_a_kept_one() {
    let places = vec![place(&["bar"], true), place(&["cafe"], true), place(&["cafe"], false)];
    for _ in 0..200 {
        assert_eq!(pick_place(&places), Some(1));
    }
    assert_eq!(pick_place(&vec![place(&["hotel"], true)]), None);
    assert_eq!(pick_place(&vec![]), None);
}
