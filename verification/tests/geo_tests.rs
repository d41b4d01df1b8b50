use spin_apps::geo::{
    get_random_city, is_populous, is_weighted_country, weight_of, weighted_city_list, CityRecord,
};

fn city(iso2: &str, population: Option<i64>) -> CityRecord {
    CityRecord { iso2: iso2.to_string(), population }
}

#[test]
fn weighted_countries_are_the_eleven_codes() {
    for c in ["DE", "FR", "ES", "IT", "TW", "TH", "VN", "PT", "KR", "SG", "HK"] {
        assert!(is_weighted_country(c), "{c}");
    }
    for c in ["US", "de", "D", "DEU", "", "GB", "JP"] {
        assert!(!is_weighted_country(c), "{c}");
    }
}

#[test]
fn population_threshold_is_strict() {
    assert!(!is_populous(Some(25000)));
    assert!(is_populous(Some(25001)));
    assert!(!is_populous(None));
    assert!(!is_populous(Some(-3)));
}

#[test]
fn weights_are_zero_one_or_two() {
    assert_eq!(weight_of(&city("DE", Some(100_000))), 2);
    assert_eq!(weight_of(&city("US", Some(100_000))), 1);
    assert_eq!(weight_of(&city("DE", Some(20_000))), 0);
    assert_eq!(weight_of(&city("FR", None)), 0);
}

#[test]
fn the_draw_repeats_weighted_cities() {
    let cities = vec![
        city("US", Some(30_000)),
        city("DE", Some(1_000_000)),
        city("FR", Some(10)),
        city("JP", None),
        city("KR", Some(25_001)),
    ];
    assert_eq!(weighted_city_list(&cities), vec![0, 1, 1, 4, 4]);
}

#[test]
fn the_draw_is_empty_without_populous_cities() {
    let cities = vec![city("US", Some(25_000)), city("DE", None)];
    assert!(weighted_city_list(&cities).is_empty());
    assert_eq!(get_random_city(&cities), None);
    assert_eq!(get_random_city(&vec![]), None);
}

#[test]
fn a_random_city_is_always_populous() {
    let cities = vec![
        city("US", Some(10)),
        city("DE", Some(1_000_000)),
        city("FR", Some(10)),
        city("CA", Some(50_000)),
    ];
    let mut seen = [0usize; 4];
    for _ in 0..2000 {
        let i = get_random_city(&cities).unwrap();
        assert!(i == 1 || i == 3);
        seen[i] += 1;
    }
    assert!(seen[1] > 0 && seen[3] > 0);
    assert!(seen[1] > seen[3]);
}
