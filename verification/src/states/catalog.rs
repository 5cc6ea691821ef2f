use vstd::prelude::*;

use crate::states::names::{
    ascending, insert_name, lemma_ascending_unique, lemma_with_name, name_views, parsed_all,
    split_identifier, texts, with_name, RegionName, RegionNameView,
};

verus! {

/// Some name of the list has the country `country`.
pub open spec fn lists_country(names: Seq<RegionNameView>, country: Seq<char>) -> bool {
    exists|k: int| 0 <= k < names.len() && (#[trigger] names[k]).country == country
}

/// The name at `k` has the country `country` and the city `city`.
pub open spec fn names_city(
    names: Seq<RegionNameView>,
    k: int,
    country: Seq<char>,
    city: Seq<char>,
) -> bool {
    0 <= k < names.len() && names[k].country == country && names[k].city == Some(city)
}

/// Some name of the list has the country `country` and the city `city`.
pub open spec fn lists_city(names: Seq<RegionNameView>, country: Seq<char>, city: Seq<char>) -> bool {
    exists|k: int| names_city(names, k, country, city)
}

/// The countries of a list of names: each once, in ascending order.
pub fn get_countries(names: &Vec<RegionName>) -> (countries: Vec<String>)
    ensures
        ascending(texts(countries@)),
        forall|c: Seq<char>|
            texts(countries@).contains(c) <==> lists_country(name_views(names@), c),
{
    let ghost all = name_views(names@);
    let mut countries: Vec<String> = Vec::new();
    let mut k: usize = 0;
    while k < names.len()
        invariant
            k <= names@.len(),
            all == name_views(names@),
            ascending(texts(countries@)),
            forall|c: Seq<char>|
                texts(countries@).contains(c) <==> lists_country(all.take(k as int), c),
        decreases names@.len() - k,
    {
        let ghost before = texts(countries@);
        insert_name(&mut countries, &names[k].country);
        proof {
            let name = all[k as int].country;
            let after = texts(countries@);
            lemma_with_name(before, name);
            assert(after == with_name(before, name));
            assert forall|c: Seq<char>| after.contains(c) <==> lists_country(
                all.take(k + 1),
                c,
            ) by {
                assert(after.contains(c) <==> before.contains(c) || c == name);
                if lists_country(all.take(k + 1), c) {
                    let j = choose|j: int|
                        0 <= j < k + 1 && (#[trigger] all.take(k + 1)[j]).country == c;
                    if j < k {
                        assert(all.take(k as int)[j].country == c);
                    }
                }
                if lists_country(all.take(k as int), c) {
                    let j = choose|j: int|
                        0 <= j < k && (#[trigger] all.take(k as int)[j]).country == c;
                    assert(all.take(k + 1)[j].country == c);
                }
                if c == name {
                    assert(all.take(k + 1)[k as int].country == c);
                }
            }
        }
        k += 1;
    }
    assert(all.take(k as int) =~= all);
    countries
}

/// The cities that a list of names has for one country: each once, in
/// ascending order. Names without a city add none.
pub fn get_cities(names: &Vec<RegionName>, country: &String) -> (cities: Vec<String>)
    ensures
        ascending(texts(cities@)),
        forall|c: Seq<char>|
            texts(cities@).contains(c) <==> lists_city(name_views(names@), country@, c),
{
    let ghost all = name_views(names@);
    let mut cities: Vec<String> = Vec::new();
    let mut k: usize = 0;
    while k < names.len()
        invariant
            k <= names@.len(),
            all == name_views(names@),
            ascending(texts(cities@)),
            forall|c: Seq<char>|
                texts(cities@).contains(c) <==> lists_city(all.take(k as int), country@, c),
        decreases names@.len() - k,
    {
        let ghost before = texts(cities@);
        let ghost shorter = all.take(k as int);
        let ghost longer = all.take(k + 1);
        let mut added: Ghost<Option<Seq<char>>> = Ghost(None);
        if names[k].country == *country {
            if let Some(city) = &names[k].city {
                insert_name(&mut cities, city);
                proof {
                    added@ = Some(city@);
                    lemma_with_name(before, city@);
                }
            }
        }
        proof {
            let after = texts(cities@);
            assert forall|c: Seq<char>| after.contains(c) <==> lists_city(
                longer,
                country@,
                c,
            ) by {
                if let Some(name) = added@ {
                    assert(after == with_name(before, name));
                    assert(after.contains(c) <==> before.contains(c) || c == name);
                    if c == name {
                        assert(names_city(longer, k as int, country@, c));
                    }
                } else {
                    assert(after == before);
                }
                if lists_city(longer, country@, c) {
                    let j = choose|j: int| names_city(longer, j, country@, c);
                    if j < k {
                        assert(names_city(shorter, j, country@, c));
                    }
                }
                if lists_city(shorter, country@, c) {
                    let j = choose|j: int| names_city(shorter, j, country@, c);
                    assert(names_city(longer, j, country@, c));
                }
            }
        }
        k += 1;
    }
    assert(all.take(k as int) =~= all);
    cities
}

/// Where the list of names first has the country `country` with the city
/// `city`, or `None` where it never has.
pub fn get_timezone(names: &Vec<RegionName>, country: &String, city: &String) -> (zone: Option<
    usize,
>)
    ensures
        zone is Some <==> lists_city(name_views(names@), country@, city@),
        zone matches Some(k) ==> first_naming(name_views(names@), k as int, country@, city@),
{
    let ghost all = name_views(names@);
    let mut k: usize = 0;
    while k < names.len()
        invariant
            k <= names@.len(),
            all == name_views(names@),
            forall|j: int| 0 <= j < k ==> !names_city(all, j, country@, city@),
        decreases names@.len() - k,
    {
        if names[k].country == *country {
            if let Some(found) = &names[k].city {
                if *found == *city {
                    assert(names_city(all, k as int, country@, city@));
                    return Some(k);
                }
            }
        }
        k += 1;
    }
    None
}

/// The name at `k` is the first of the list with the country `country` and
/// the city `city`.
pub open spec fn first_naming(
    names: Seq<RegionNameView>,
    k: int,
    country: Seq<char>,
    city: Seq<char>,
) -> bool {
    &&& names_city(names, k, country, city)
    &&& forall|j: int| 0 <= j < k ==> !names_city(names, j, country, city)
}

/// A region catalog as a plain value: the countries, for each country its
/// cities, and for each city the place of its zone in the list that the
/// catalog was made from.
pub struct CatalogView {
    pub countries: Seq<Seq<char>>,
    pub cities: Seq<Seq<Seq<char>>>,
    pub zones: Seq<Seq<int>>,
}

impl CatalogView {
    /// The countries are in ascending order, each has its own ascending
    /// list of cities, and each city has a zone. No list is longer than a
    /// machine can hold.
    pub open spec fn wf(self) -> bool {
        &&& self.countries.len() <= usize::MAX
        &&& self.cities.len() == self.countries.len()
        &&& self.zones.len() == self.countries.len()
        &&& ascending(self.countries)
        &&& forall|i: int|
            0 <= i < self.countries.len() ==> ascending(#[trigger] self.cities[i])
                && self.cities[i].len() <= usize::MAX
        &&& forall|i: int|
            0 <= i < self.countries.len() ==> (#[trigger] self.zones[i]).len()
                == self.cities[i].len()
    }

    /// The catalog holds what `names` lists and nothing else: the countries
    /// of the names, under each country the cities that some name has for
    /// it, and with each city the place of the first name that has it.
    pub open spec fn derived_from(self, names: Seq<RegionNameView>) -> bool {
        &&& forall|c: Seq<char>| self.countries.contains(c) <==> lists_country(names, c)
        &&& forall|i: int, c: Seq<char>|
            0 <= i < self.countries.len() ==> ((#[trigger] self.cities[i].contains(c))
                <==> lists_city(names, self.countries[i], c))
        &&& forall|i: int, j: int|
            0 <= i < self.countries.len() && 0 <= j < self.cities[i].len() ==> first_naming(
                names,
                #[trigger] self.zones[i][j],
                self.countries[i],
                self.cities[i][j],
            )
    }
}

/// The texts of the city lists.
pub open spec fn city_texts(cities: Seq<Vec<String>>) -> Seq<Seq<Seq<char>>> {
    Seq::new(cities.len(), |i: int| texts(cities[i]@))
}

/// The numbers of the zone lists.
pub open spec fn zone_values(zones: Seq<Vec<usize>>) -> Seq<Seq<int>> {
    Seq::new(zones.len(), |i: int| Seq::new(zones[i]@.len(), |j: int| zones[i]@[j] as int))
}

/// The two-level list of regions: countries, and under each its cities.
///
/// It is made once from a flat list of identifiers and never changes.
#[derive(Debug)]
pub struct RegionCatalog {
    countries: Vec<String>,
    cities: Vec<Vec<String>>,
    zones: Vec<Vec<usize>>,
}

impl View for RegionCatalog {
    type V = CatalogView;

    closed spec fn view(&self) -> CatalogView {
        CatalogView {
            countries: texts(self.countries@),
            cities: city_texts(self.cities@),
            zones: zone_values(self.zones@),
        }
    }
}

impl RegionCatalog {
    #[verifier::type_invariant]
    spec fn inv(self) -> bool {
        self@.wf()
    }

    /// The catalog of a list of identifiers, each of the form
    /// country, separator, city.
    pub fn new(ids: &Vec<String>) -> (catalog: RegionCatalog)
        ensures
            catalog@.wf(),
            catalog@.derived_from(parsed_all(ids@)),
    {
        let mut names: Vec<RegionName> = Vec::new();
        let mut k: usize = 0;
        while k < ids.len()
            invariant
                k <= ids@.len(),
                names@.len() == k,
                forall|j: int| 0 <= j < k ==> (#[trigger] names@[j])@ == parsed_all(ids@)[j],
            decreases ids@.len() - k,
        {
            names.push(split_identifier(&ids[k]));
            k += 1;
        }
        assert(name_views(names@) =~= parsed_all(ids@));
        RegionCatalog::from_names(&names)
    }

    /// The catalog of a list of names.
    pub fn from_names(names: &Vec<RegionName>) -> (catalog: RegionCatalog)
        ensures
            catalog@.wf(),
            catalog@.derived_from(name_views(names@)),
    {
        let ghost all = name_views(names@);
        let countries = get_countries(names);
        let mut cities: Vec<Vec<String>> = Vec::new();
        let mut zones: Vec<Vec<usize>> = Vec::new();
        let mut i: usize = 0;
        while i < countries.len()
            invariant
                i <= countries@.len(),
                all == name_views(names@),
                cities@.len() == i,
                zones@.len() == i,
                forall|a: int|
                    0 <= a < i ==> ascending(texts(#[trigger] cities@[a]@)) && cities@[a]@.len()
                        <= usize::MAX,
                forall|a: int|
                    0 <= a < i ==> (#[trigger] zones@[a])@.len() == cities@[a]@.len(),
                forall|a: int, c: Seq<char>|
                    0 <= a < i ==> ((#[trigger] texts(cities@[a]@).contains(c)) <==> lists_city(
                        all,
                        countries@[a]@,
                        c,
                    )),
                forall|a: int, b: int|
                    0 <= a < i && 0 <= b < cities@[a]@.len() ==> first_naming(
                        all,
                        #[trigger] zones@[a]@[b] as int,
                        countries@[a]@,
                        cities@[a]@[b]@,
                    ),
            decreases countries@.len() - i,
        {
            let list = get_cities(names, &countries[i]);
            let mut found: Vec<usize> = Vec::new();
            let mut j: usize = 0;
            while j < list.len()
                invariant
                    j <= list@.len(),
                    i < countries@.len(),
                    all == name_views(names@),
                    found@.len() == j,
                    forall|c: Seq<char>|
                        texts(list@).contains(c) <==> lists_city(all, countries@[i as int]@, c),
                    forall|b: int|
                        0 <= b < j ==> first_naming(
                            all,
                            #[trigger] found@[b] as int,
                            countries@[i as int]@,
                            list@[b]@,
                        ),
                decreases list@.len() - j,
            {
                let zone = get_timezone(names, &countries[i], &list[j]);
                assert(texts(list@)[j as int] == list@[j as int]@);
                assert(texts(list@).contains(list@[j as int]@));
                found.push(zone.unwrap());
                j += 1;
            }
            let ghost old_cities = cities@;
            let ghost old_zones = zones@;
            cities.push(list);
            zones.push(found);
            assert forall|a: int| 0 <= a < i + 1 implies ascending(
                texts(#[trigger] cities@[a]@),
            ) && cities@[a]@.len() <= usize::MAX by {
                if a < i {
                    assert(cities@[a] == old_cities[a]);
                }
            }
            assert forall|a: int| 0 <= a < i + 1 implies (#[trigger] zones@[a])@.len()
                == cities@[a]@.len() by {
                if a < i {
                    assert(cities@[a] == old_cities[a]);
                    assert(zones@[a] == old_zones[a]);
                }
            }
            assert forall|a: int, c: Seq<char>| 0 <= a < i + 1 implies ((#[trigger] texts(
                cities@[a]@,
            ).contains(c)) <==> lists_city(all, countries@[a]@, c)) by {
                if a < i {
                    assert(cities@[a] == old_cities[a]);
                }
            }
            assert forall|a: int, b: int|
                0 <= a < i + 1 && 0 <= b < cities@[a]@.len() implies first_naming(
                all,
                #[trigger] zones@[a]@[b] as int,
                countries@[a]@,
                cities@[a]@[b]@,
            ) by {
                if a < i {
                    assert(cities@[a] == old_cities[a]);
                    assert(zones@[a] == old_zones[a]);
                }
            }
            i += 1;
        }
        let catalog = RegionCatalog { countries, cities, zones };
        proof {
            let view = catalog@;
            assert forall|a: int, c: Seq<char>| 0 <= a < view.countries.len() implies ((
            #[trigger] view.cities[a].contains(c)) <==> lists_city(all, view.countries[a], c)) by {
                assert(view.cities[a] == texts(catalog.cities@[a]@));
            }
            assert forall|a: int, b: int|
                0 <= a < view.countries.len() && 0 <= b < view.cities[a].len() implies first_naming(
                all,
                #[trigger] view.zones[a][b],
                view.countries[a],
                view.cities[a][b],
            ) by {
                assert(view.zones[a][b] == catalog.zones@[a]@[b] as int);
            }
        }
        catalog
    }

    /// The countries, in ascending order.
    pub fn countries(&self) -> (list: &Vec<String>)
        ensures
            texts(list@) == self@.countries,
            self@.wf(),
    {
        proof {
            use_type_invariant(self);
        }
        &self.countries
    }

    /// The cities of the country at `country`, in ascending order; `None`
    /// where the catalog has no such country.
    pub fn cities(&self, country: usize) -> (list: Option<&Vec<String>>)
        ensures
            self@.wf(),
            list is Some <==> country < self@.countries.len(),
            list matches Some(l) ==> texts(l@) == self@.cities[country as int],
    {
        proof {
            use_type_invariant(self);
        }
        if country < self.cities.len() {
            Some(&self.cities[country])
        } else {
            None
        }
    }

    /// The place, in the list that the catalog was made from, of the zone
    /// of the city at `city` under the country at `country`; `None` where
    /// the catalog has no such city.
    pub fn zone(&self, country: usize, city: usize) -> (place: Option<usize>)
        ensures
            self@.wf(),
            place is Some <==> country < self@.countries.len() && city
                < self@.cities[country as int].len(),
            place matches Some(k) ==> k == self@.zones[country as int][city as int],
    {
        proof {
            use_type_invariant(self);
        }
        if country < self.zones.len() {
            assert(self@.zones[country as int].len() == self.zones@[country as int]@.len());
            if city < self.zones[country].len() {
                return Some(self.zones[country][city]);
            }
        }
        None
    }
}

/// A list of names has one catalog and no other: whatever is well formed
/// and holds what the names list is that catalog.
pub proof fn lemma_catalog_unique(a: CatalogView, b: CatalogView, names: Seq<RegionNameView>)
    requires
        a.wf(),
        b.wf(),
        a.derived_from(names),
        b.derived_from(names),
    ensures
        a == b,
{
    assert forall|c: Seq<char>| a.countries.contains(c) <==> b.countries.contains(c) by {
        assert(a.countries.contains(c) <==> lists_country(names, c));
        assert(b.countries.contains(c) <==> lists_country(names, c));
    }
    lemma_ascending_unique(a.countries, b.countries);
    assert forall|i: int| 0 <= i < a.countries.len() implies a.cities[i] == b.cities[i] by {
        let x = a.cities[i];
        let y = b.cities[i];
        assert forall|c: Seq<char>| x.contains(c) <==> y.contains(c) by {
            assert(a.cities[i].contains(c) <==> lists_city(names, a.countries[i], c));
            assert(b.cities[i].contains(c) <==> lists_city(names, b.countries[i], c));
        }
        lemma_ascending_unique(x, y);
    }
    assert(a.cities =~= b.cities);
    assert forall|i: int| 0 <= i < a.countries.len() implies a.zones[i] == b.zones[i] by {
        assert(a.zones[i].len() == a.cities[i].len());
        assert(b.zones[i].len() == b.cities[i].len());
        assert forall|j: int| 0 <= j < a.cities[i].len() implies a.zones[i][j] == b.zones[i][j] by {
            let p = a.zones[i][j];
            let q = b.zones[i][j];
            assert(first_naming(names, p, a.countries[i], a.cities[i][j]));
            assert(first_naming(names, q, b.countries[i], b.cities[i][j]));
            if p < q {
                assert(names_city(names, p, a.countries[i], a.cities[i][j]));
            } else if q < p {
                assert(names_city(names, q, a.countries[i], a.cities[i][j]));
            }
        }
        assert(a.zones[i] =~= b.zones[i]);
    }
    assert(a.zones =~= b.zones);
}

} // verus!
