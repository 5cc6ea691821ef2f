use smart_clock::states::catalog::{get_cities, get_countries, get_timezone, RegionCatalog};
use smart_clock::states::names::{comes_before, insert_name, split_identifier, RegionName, SEPARATOR};

fn strings(items: &[&str]) -> Vec<String> {
    items.iter().map(|s| s.to_string()).collect()
}

fn name(country: &str, city: Option<&str>) -> RegionName {
    RegionName { country: country.to_string(), city: city.map(|c| c.to_string()) }
}

fn names(ids: &[&str]) -> Vec<RegionName> {
    ids.iter().map(|id| split_identifier(&id.to_string())).collect()
}

#[test]
fn separator_is_a_slash() {
    assert_eq!(SEPARATOR, '/');
}

#[test]
fn split_identifier_at_the_first_separator() {
    assert_eq!(split_identifier(&"US/NewYork".to_string()), name("US", Some("NewYork")));
    assert_eq!(split_identifier(&"Europe/Berlin".to_string()), name("Europe", Some("Berlin")));
}

#[test]
fn split_identifier_without_separator_has_no_city() {
    assert_eq!(split_identifier(&"UTC".to_string()), name("UTC", None));
    assert_eq!(split_identifier(&"".to_string()), name("", None));
}

#[test]
fn split_identifier_takes_the_second_of_three_components() {
    assert_eq!(
        split_identifier(&"America/Argentina/Buenos_Aires".to_string()),
        name("America", Some("Argentina"))
    );
    assert_eq!(split_identifier(&"a/b/c/d".to_string()), name("a", Some("b")));
}

#[test]
fn split_identifier_keeps_empty_components() {
    assert_eq!(split_identifier(&"A/".to_string()), name("A", Some("")));
    assert_eq!(split_identifier(&"/x".to_string()), name("", Some("x")));
    assert_eq!(split_identifier(&"/".to_string()), name("", Some("")));
    assert_eq!(split_identifier(&"A//B".to_string()), name("A", Some("")));
}

#[test]
fn split_identifier_counts_characters_not_bytes() {
    assert_eq!(split_identifier(&"Öst/Zürich".to_string()), name("Öst", Some("Zürich")));
    assert_eq!(split_identifier(&"日本/東京/x".to_string()), name("日本", Some("東京")));
}

#[test]
fn comes_before_is_the_order_of_str() {
    let words = ["", "A", "AB", "Ab", "B", "a", "ab", "b", "é", "z", "Z", "UK", "US", "日本", "ab/c"];
    for a in words {
        for b in words {
            assert_eq!(comes_before(&a.to_string(), &b.to_string()), a < b, "{a:?} {b:?}");
        }
    }
}

#[test]
fn insert_name_keeps_the_list_sorted_and_free_of_doubles() {
    let mut list: Vec<String> = Vec::new();
    assert_eq!(insert_name(&mut list, &"m".to_string()), 0);
    assert_eq!(insert_name(&mut list, &"z".to_string()), 1);
    assert_eq!(insert_name(&mut list, &"a".to_string()), 0);
    assert_eq!(insert_name(&mut list, &"n".to_string()), 2);
    assert_eq!(list, strings(&["a", "m", "n", "z"]));
    assert_eq!(insert_name(&mut list, &"n".to_string()), 2);
    assert_eq!(insert_name(&mut list, &"a".to_string()), 0);
    assert_eq!(insert_name(&mut list, &"z".to_string()), 3);
    assert_eq!(list, strings(&["a", "m", "n", "z"]));
}

#[test]
fn insert_name_goes_before_the_first_name_that_does_not_come_before_it() {
    let mut list = strings(&["m", "a", "z"]);
    assert_eq!(insert_name(&mut list, &"b".to_string()), 0);
    assert_eq!(list, strings(&["b", "m", "a", "z"]));
    assert_eq!(insert_name(&mut list, &"n".to_string()), 3);
    assert_eq!(list, strings(&["b", "m", "a", "n", "z"]));
    assert_eq!(insert_name(&mut list, &"a".to_string()), 0);
    assert_eq!(list, strings(&["a", "b", "m", "a", "n", "z"]));
}

#[test]
fn get_countries_sorted_and_deduplicated() {
    let all = names(&["US/NewYork", "US/LosAngeles", "UK/London"]);
    assert_eq!(get_countries(&all), strings(&["UK", "US"]));
    assert_eq!(get_countries(&Vec::new()), Vec::<String>::new());
}

#[test]
fn get_countries_lists_names_without_city_too() {
    let all = names(&["UTC", "Europe/Berlin", "EST", "Europe/Paris"]);
    assert_eq!(get_countries(&all), strings(&["EST", "Europe", "UTC"]));
}

#[test]
fn get_cities_of_one_country() {
    let all = names(&["US/NewYork", "US/LosAngeles", "UK/London", "US/NewYork"]);
    assert_eq!(get_cities(&all, &"US".to_string()), strings(&["LosAngeles", "NewYork"]));
    assert_eq!(get_cities(&all, &"UK".to_string()), strings(&["London"]));
    assert_eq!(get_cities(&all, &"FR".to_string()), Vec::<String>::new());
}

#[test]
fn get_cities_of_a_name_without_city_is_empty() {
    let all = names(&["UTC", "Europe/Berlin"]);
    assert_eq!(get_cities(&all, &"UTC".to_string()), Vec::<String>::new());
}

#[test]
fn get_timezone_is_the_first_match() {
    let all = names(&[
        "UK/London",
        "America/Argentina/Buenos_Aires",
        "America/Argentina/Cordoba",
        "America/Chicago",
        "Argentina",
    ]);
    assert_eq!(get_timezone(&all, &"UK".to_string(), &"London".to_string()), Some(0));
    assert_eq!(get_timezone(&all, &"America".to_string(), &"Argentina".to_string()), Some(1));
    assert_eq!(get_timezone(&all, &"America".to_string(), &"Chicago".to_string()), Some(3));
    assert_eq!(get_timezone(&all, &"America".to_string(), &"London".to_string()), None);
    assert_eq!(get_timezone(&all, &"Argentina".to_string(), &"".to_string()), None);
    assert_eq!(get_timezone(&Vec::new(), &"UK".to_string(), &"London".to_string()), None);
}

#[test]
fn catalog_of_three_identifiers() {
    let catalog = RegionCatalog::new(&strings(&["US/NewYork", "US/LosAngeles", "UK/London"]));
    assert_eq!(catalog.countries(), &strings(&["UK", "US"]));
    let us = catalog.countries().iter().position(|c| c == "US").unwrap();
    assert_eq!(catalog.cities(us), Some(&strings(&["LosAngeles", "NewYork"])));
    assert_eq!(catalog.cities(0), Some(&strings(&["London"])));
    assert_eq!(catalog.cities(2), None);
}

#[test]
fn catalog_zones_point_back_into_the_identifiers() {
    let ids = strings(&["US/NewYork", "US/LosAngeles", "UK/London", "US/LosAngeles/Downtown"]);
    let catalog = RegionCatalog::new(&ids);
    assert_eq!(catalog.zone(0, 0), Some(2));
    assert_eq!(catalog.zone(1, 0), Some(1));
    assert_eq!(catalog.zone(1, 1), Some(0));
    assert_eq!(catalog.zone(1, 2), None);
    assert_eq!(catalog.zone(0, 1), None);
    assert_eq!(catalog.zone(2, 0), None);
}

#[test]
fn catalog_of_nothing_is_empty() {
    let catalog = RegionCatalog::new(&Vec::new());
    assert!(catalog.countries().is_empty());
    assert_eq!(catalog.cities(0), None);
    assert_eq!(catalog.zone(0, 0), None);
}

#[test]
fn catalog_from_names_agrees_with_catalog_from_identifiers() {
    let ids = strings(&["b/y", "a/x", "b/x", "c", "a/x/z"]);
    let one = RegionCatalog::new(&ids);
    let two = RegionCatalog::from_names(&names(&["b/y", "a/x", "b/x", "c", "a/x/z"]));
    assert_eq!(one.countries(), two.countries());
    assert_eq!(one.countries(), &strings(&["a", "b", "c"]));
    for i in 0..4 {
        assert_eq!(one.cities(i), two.cities(i));
        for j in 0..3 {
            assert_eq!(one.zone(i, j), two.zone(i, j));
        }
    }
    assert_eq!(one.cities(1), Some(&strings(&["x", "y"])));
    assert_eq!(one.cities(2), Some(&Vec::new()));
    assert_eq!(one.zone(0, 0), Some(1));
    assert_eq!(one.zone(1, 0), Some(2));
    assert_eq!(one.zone(1, 1), Some(0));
}

#[test]
fn catalog_lists_agree_with_a_sorted_set() {
    let ids = strings(&[
        "Europe/Zurich", "Asia/Tokyo", "Europe/Berlin", "Asia/Dubai", "UTC", "Europe/Berlin",
        "Africa/Cairo", "Asia/Tokyo", "Europe/Amsterdam", "GMT", "Africa/Accra",
    ]);
    let catalog = RegionCatalog::new(&ids);
    let mut countries: Vec<String> =
        ids.iter().map(|id| id.split('/').next().unwrap().to_string()).collect();
    countries.sort();
    countries.dedup();
    assert_eq!(catalog.countries(), &countries);
    for (i, country) in countries.iter().enumerate() {
        let mut cities: Vec<String> = ids
            .iter()
            .filter(|id| id.split('/').next().unwrap() == country)
            .filter_map(|id| id.split('/').nth(1).map(|c| c.to_string()))
            .collect();
        cities.sort();
        cities.dedup();
        assert_eq!(catalog.cities(i), Some(&cities));
        for (j, city) in cities.iter().enumerate() {
            let first = ids.iter().position(|id| *id == format!("{country}/{city}")).unwrap();
            assert_eq!(catalog.zone(i, j), Some(first));
        }
    }
}
