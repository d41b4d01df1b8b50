use vstd::prelude::*;
use crate::random::pick_one;
use crate::text::text_equals;

verus! {

/// What the city choice reads of a geopoint: its ISO-3166 alpha-2 country
/// code and its population, where known.
pub struct CityRecord {
    pub iso2: String,
    pub population: Option<i64>,
}

/// A city takes part only when its population exceeds this.
pub const MIN_POPULATION: i64 = 25000;

/// A city whose population is unknown counts as having none.
pub open spec fn spec_is_populous(population: Option<i64>) -> bool {
    match population {
        Some(p) => p > MIN_POPULATION,
        None => 0 > MIN_POPULATION,
    }
}

/// The countries whose cities get twice the chance of being picked.
pub open spec fn spec_is_weighted_country(iso2: Seq<char>) -> bool {
    ||| iso2 == "DE"@
    ||| iso2 == "FR"@
    ||| iso2 == "ES"@
    ||| iso2 == "IT"@
    ||| iso2 == "TW"@
    ||| iso2 == "TH"@
    ||| iso2 == "VN"@
    ||| iso2 == "PT"@
    ||| iso2 == "KR"@
    ||| iso2 == "SG"@
    ||| iso2 == "HK"@
}

/// How many tickets a city has in the draw: none when it is too small, two
/// in a weighted country, else one.
pub open spec fn city_weight(c: CityRecord) -> nat {
    if !spec_is_populous(c.population) {
        0
    } else if spec_is_weighted_country(c.iso2@) {
        2
    } else {
        1
    }
}

/// The draw: each city's index, in order, repeated as many times as its
/// weight.
pub open spec fn weighted_city_indices(cities: Seq<CityRecord>) -> Seq<usize>
    decreases cities.len(),
{
    if cities.len() == 0 {
        Seq::empty()
    } else {
        let i = (cities.len() - 1) as usize;
        weighted_city_indices(cities.drop_last()) + Seq::new(
            city_weight(cities.last()),
            |k: int| i,
        )
    }
}

/// Number of times `v` occurs in `s`.
pub open spec fn occurrences(s: Seq<usize>, v: usize) -> nat
    decreases s.len(),
{
    if s.len() == 0 {
        0
    } else {
        occurrences(s.drop_last(), v) + if s.last() == v { 1nat } else { 0nat }
    }
}

/// Whether a population takes part in the draw.
pub fn is_populous(population: Option<i64>) -> (r: bool)
    ensures
        r == spec_is_populous(population),
{
    match population {
        Some(p) => p > MIN_POPULATION,
        None => 0 > MIN_POPULATION,
    }
}

/// Whether a country code is one of the weighted countries.
pub fn is_weighted_country(iso2: &str) -> (r: bool)
    ensures
        r == spec_is_weighted_country(iso2@),
{
    text_equals(iso2, "DE") || text_equals(iso2, "FR") || text_equals(iso2, "ES")
        || text_equals(iso2, "IT") || text_equals(iso2, "TW") || text_equals(iso2, "TH")
        || text_equals(iso2, "VN") || text_equals(iso2, "PT") || text_equals(iso2, "KR")
        || text_equals(iso2, "SG") || text_equals(iso2, "HK")
}

/// The weight of one city in the draw.
pub fn weight_of(city: &CityRecord) -> (r: usize)
    ensures
        r == city_weight(*city),
{
    if !is_populous(city.population) {
        0
    } else if is_weighted_country(city.iso2.as_str()) {
        2
    } else {
        1
    }
}

/// Builds the draw: the index of every populous city, twice for a city of
/// a weighted country, in the order of `cities`.
pub fn weighted_city_list(cities: &Vec<CityRecord>) -> (r: Vec<usize>)
    ensures
        r@ == weighted_city_indices(cities@),
{
    let mut out: Vec<usize> = Vec::new();
    let mut i: usize = 0;
    while i < cities.len()
        invariant
            i <= cities.len(),
            out@ == weighted_city_indices(cities@.take(i as int)),
        decreases cities.len() - i,
    {
        let w = weight_of(&cities[i]);
        let ghost before = out@;
        let mut k: usize = 0;
        while k < w
            invariant
                k <= w,
                w == city_weight(cities@[i as int]),
                out@ == before + Seq::new(k as nat, |m: int| i),
            decreases w - k,
        {
            out.push(i);
            assert(Seq::new(k as nat, |m: int| i).push(i) =~= Seq::new((k + 1) as nat, |m: int| i));
            k = k + 1;
        }
        assert(cities@.take(i as int + 1).drop_last() =~= cities@.take(i as int));
        assert(cities@.take(i as int + 1).last() == cities@[i as int]);
        i = i + 1;
    }
    assert(cities@.take(cities.len() as int) =~= cities@);
    out
}

/// Occurrences in a concatenation add up.
pub proof fn lemma_occurrences_concat(a: Seq<usize>, b: Seq<usize>, v: usize)
    ensures
        occurrences(a + b, v) == occurrences(a, v) + occurrences(b, v),
    decreases b.len(),
{
    if b.len() == 0 {
        assert(a + b =~= a);
    } else {
        assert((a + b).drop_last() =~= a + b.drop_last());
        lemma_occurrences_concat(a, b.drop_last(), v);
    }
}

/// A run of `n` copies of `i` holds `v` exactly `n` times if `v == i`.
pub proof fn lemma_occurrences_run(n: nat, i: usize, v: usize)
    ensures
        occurrences(Seq::new(n, |k: int| i), v) == if v == i { n } else { 0 },
    decreases n,
{
    if n > 0 {
        assert(Seq::new(n, |k: int| i).drop_last() =~= Seq::new((n - 1) as nat, |k: int| i));
        lemma_occurrences_run((n - 1) as nat, i, v);
    }
}

/// Each city occurs in the draw exactly as many times as its weight, and no
/// other value occurs in it: a populous city once, or twice in a weighted
/// country; a small city never.
pub proof fn lemma_draw_counts(cities: Seq<CityRecord>, v: usize)
    requires
        cities.len() <= usize::MAX,
    ensures
        occurrences(weighted_city_indices(cities), v) == if (v as int) < cities.len() {
            city_weight(cities[v as int])
        } else {
            0
        },
    decreases cities.len(),
{
    if cities.len() > 0 {
        let i = (cities.len() - 1) as usize;
        lemma_draw_counts(cities.drop_last(), v);
        lemma_occurrences_concat(
            weighted_city_indices(cities.drop_last()),
            Seq::new(city_weight(cities.last()), |k: int| i),
            v,
        );
        lemma_occurrences_run(city_weight(cities.last()), i, v);
    }
}

/// A value occurs in a sequence exactly when it is counted at least once.
pub proof fn lemma_contains_iff_occurs(s: Seq<usize>, v: usize)
    ensures
        s.contains(v) <==> occurrences(s, v) > 0,
    decreases s.len(),
{
    if s.len() > 0 {
        lemma_contains_iff_occurs(s.drop_last(), v);
        if s.contains(v) {
            let k = choose|k: int| 0 <= k < s.len() && s[k] == v;
            if k < s.len() - 1 {
                assert(s.drop_last()[k] == v);
            }
        }
        if s.drop_last().contains(v) {
            let k = choose|k: int| 0 <= k < s.drop_last().len() && s.drop_last()[k] == v;
            assert(s[k] == v);
        }
        if s.last() == v {
            assert(s[s.len() - 1] == v);
        }
    }
}

/// The draw holds exactly the indices of the populous cities.
pub proof fn lemma_draw_members(cities: Seq<CityRecord>, v: usize)
    requires
        cities.len() <= usize::MAX,
    ensures
        weighted_city_indices(cities).contains(v) <==> ((v as int) < cities.len()
            && spec_is_populous(cities[v as int].population)),
{
    lemma_draw_counts(cities, v);
    lemma_contains_iff_occurs(weighted_city_indices(cities), v);
}

/// Picks a city for the day: one entry of the draw at random, so each
/// populous city has a chance proportional to its weight. `None` when no
/// city is populous.
pub fn get_random_city(cities: &Vec<CityRecord>) -> (r: Option<usize>)
    ensures
        r is None <==> weighted_city_indices(cities@).len() == 0,
        r is None <==> (forall|j: int|
            0 <= j < cities.len() ==> !spec_is_populous(#[trigger] cities@[j].population)),
        r matches Some(i) ==> weighted_city_indices(cities@).contains(i),
        r matches Some(i) ==> i < cities.len() && spec_is_populous(cities@[i as int].population),
{
    let draw = weighted_city_list(cities);
    let r = pick_one(&draw);
    proof {
        assert(cities@.len() == cities.len());
        if let Some(i) = r {
            lemma_draw_members(cities@, i);
        }
        if draw.len() == 0 {
            assert forall|j: int| 0 <= j < cities.len() implies !spec_is_populous(
                #[trigger] cities@[j].population,
            ) by {
                lemma_draw_members(cities@, j as usize);
            }
        } else {
            lemma_draw_members(cities@, draw@[0]);
            assert(draw@.contains(draw@[0]));
        }
    }
    r
}


/// A known population takes part in the draw exactly when it exceeds
/// 25,000, with no upper limit; an unknown population never does.
pub proof fn lemma_populous_exactly(p: i64)
    ensures
        p > 25000 ==> spec_is_populous(Some(p)),
        p <= 25000 ==> !spec_is_populous(Some(p)),
        !spec_is_populous(None),
{
}

/// Every city of more than 25,000 inhabitants is in the draw, once, or
/// twice in one of the eleven weighted countries (DE, FR, ES, IT, TW, TH,
/// VN, PT, KR, SG, HK); a city of at most 25,000, or of unknown size, is not.
pub proof fn lemma_city_in_draw(cities: Seq<CityRecord>, i: int)
    requires
        cities.len() <= usize::MAX,
        0 <= i < cities.len(),
    ensures
        (cities[i].population matches Some(p) && p > 25000) ==> occurrences(
            weighted_city_indices(cities),
            i as usize,
        ) == if spec_is_weighted_country(cities[i].iso2@) { 2nat } else { 1nat },
        (cities[i].population matches Some(p) && p > 25000) ==> weighted_city_indices(
            cities,
        ).contains(i as usize),
        !(cities[i].population matches Some(p) && p > 25000) ==> !weighted_city_indices(
            cities,
        ).contains(i as usize),
{
    lemma_draw_counts(cities, i as usize);
    lemma_draw_members(cities, i as usize);
}

} // verus!
