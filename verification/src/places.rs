use vstd::prelude::*;
use crate::random::pick_one;
use crate::text::text_equals;
use crate::json::{member, member_str, parse_json, spec_at, spec_member, spec_member_str, spec_parse_json, Json};

verus! {

/// What the café choice reads of one nearby-search result: its place types,
/// and whether its rating passes (a rating of at least 2.5 from more than 9
/// reviews; the caller compares the floating-point fields).
pub struct PlaceCandidate {
    pub types: Vec<String>,
    pub rated_well: bool,
}

/// The place types that rule a result out: the search is for cafés.
pub open spec fn spec_is_excluded_type(t: Seq<char>) -> bool {
    ||| t == "hotel"@
    ||| t == "lodge"@
    ||| t == "lodging"@
    ||| t == "gas_station"@
    ||| t == "convenience_store"@
    ||| t == "grocery_or_supermarket"@
    ||| t == "night_club"@
    ||| t == "restaurant"@
    ||| t == "bar"@
}

/// A result is ruled out when any of its types is.
pub open spec fn spec_is_excluded_place(types: Seq<String>) -> bool {
    exists|k: int| 0 <= k < types.len() && spec_is_excluded_type(#[trigger] types[k]@)
}

/// A result is kept when it is not ruled out and is rated well.
pub open spec fn spec_place_kept(p: PlaceCandidate) -> bool {
    !spec_is_excluded_place(p.types@) && p.rated_well
}

/// The indices of the kept results, in order.
pub open spec fn kept_place_indices(places: Seq<PlaceCandidate>) -> Seq<usize>
    decreases places.len(),
{
    if places.len() == 0 {
        Seq::empty()
    } else {
        let rest = kept_place_indices(places.drop_last());
        if spec_place_kept(places.last()) {
            rest.push((places.len() - 1) as usize)
        } else {
            rest
        }
    }
}

/// Whether a place type rules a result out.
pub fn is_excluded_type(t: &str) -> (r: bool)
    ensures
        r == spec_is_excluded_type(t@),
{
    text_equals(t, "hotel") || text_equals(t, "lodge") || text_equals(t, "lodging")
        || text_equals(t, "gas_station") || text_equals(t, "convenience_store")
        || text_equals(t, "grocery_or_supermarket") || text_equals(t, "night_club")
        || text_equals(t, "restaurant") || text_equals(t, "bar")
}

/// Whether any of the types rules a result out.
pub fn is_excluded_place(types: &Vec<String>) -> (r: bool)
    ensures
        r == spec_is_excluded_place(types@),
{
    let mut i: usize = 0;
    while i < types.len()
        invariant
            i <= types.len(),
            forall|k: int| 0 <= k < i ==> !spec_is_excluded_type(#[trigger] types@[k]@),
        decreases types.len() - i,
    {
        if is_excluded_type(types[i].as_str()) {
            assert(spec_is_excluded_type(types@[i as int]@));
            return true;
        }
        i = i + 1;
    }
    false
}

/// Whether a result is kept.
pub fn is_place_kept(p: &PlaceCandidate) -> (r: bool)
    ensures
        r == spec_place_kept(*p),
{
    !is_excluded_place(&p.types) && p.rated_well
}

/// The indices of the results that are kept, in the order of the results.
pub fn filter_places(places: &Vec<PlaceCandidate>) -> (r: Vec<usize>)
    ensures
        r@ == kept_place_indices(places@),
{
    let mut out: Vec<usize> = Vec::new();
    let mut i: usize = 0;
    while i < places.len()
        invariant
            i <= places.len(),
            out@ == kept_place_indices(places@.take(i as int)),
        decreases places.len() - i,
    {
        if is_place_kept(&places[i]) {
            out.push(i);
        }
        assert(places@.take(i as int + 1).drop_last() =~= places@.take(i as int));
        assert(places@.take(i as int + 1).last() == places@[i as int]);
        i = i + 1;
    }
    assert(places@.take(places.len() as int) =~= places@);
    out
}

/// The kept indices are exactly the indices of the kept results, and they
/// come in increasing order.
pub proof fn lemma_kept_indices(places: Seq<PlaceCandidate>)
    requires
        places.len() <= usize::MAX,
    ensures
        forall|v: usize| #[trigger]
            kept_place_indices(places).contains(v) <==> ((v as int) < places.len()
                && spec_place_kept(places[v as int])),
        forall|a: int, b: int|
            0 <= a < b < kept_place_indices(places).len() ==> kept_place_indices(places)[a]
                < kept_place_indices(places)[b],
        forall|a: int|
            0 <= a < kept_place_indices(places).len() ==> (#[trigger] kept_place_indices(
                places,
            )[a] as int) < places.len(),
    decreases places.len(),
{
    if places.len() > 0 {
        let init = places.drop_last();
        lemma_kept_indices(init);
        let rest = kept_place_indices(init);
        let last = (places.len() - 1) as usize;
        assert forall|v: usize| #[trigger]
            kept_place_indices(places).contains(v) <==> ((v as int) < places.len()
                && spec_place_kept(places[v as int])) by {
            if kept_place_indices(places).contains(v) {
                let k = choose|k: int|
                    0 <= k < kept_place_indices(places).len() && kept_place_indices(places)[k]
                        == v;
                if k < rest.len() {
                    assert(rest.contains(v));
                }
            }
            if (v as int) < places.len() && spec_place_kept(places[v as int]) {
                if v == last {
                    assert(kept_place_indices(places)[rest.len() as int] == v);
                } else {
                    assert(init[v as int] == places[v as int]);
                    assert(rest.contains(v));
                    let k = choose|k: int| 0 <= k < rest.len() && rest[k] == v;
                    assert(kept_place_indices(places)[k] == v);
                }
            }
        }
    }
}

/// Picks one of the kept results at random; `None` when none is kept.
pub fn pick_place(places: &Vec<PlaceCandidate>) -> (r: Option<usize>)
    ensures
        r is None <==> kept_place_indices(places@).len() == 0,
        r is None <==> (forall|j: int|
            0 <= j < places.len() ==> !spec_place_kept(#[trigger] places@[j])),
        r matches Some(i) ==> i < places.len() && spec_place_kept(places@[i as int]),
{
    let kept = filter_places(places);
    let r = pick_one(&kept);
    proof {
        assert(places@.len() == places.len());
        lemma_kept_indices(places@);
        if kept.len() == 0 {
            assert forall|j: int| 0 <= j < places.len() implies !spec_place_kept(
                #[trigger] places@[j],
            ) by {
                assert(!kept@.contains(j as usize));
            }
        } else {
            assert(kept@.contains(kept@[0]));
        }
    }
    r
}


/// The view of an optional string.
pub open spec fn opt_view(o: Option<String>) -> Option<Seq<char>> {
    match o {
        Some(s) => Some(s@),
        None => None,
    }
}

/// What is read of one result of a nearby search.
pub struct NearbyResult {
    /// The string entries of its `types`.
    pub types: Vec<String>,
    /// The text of its `rating`, where that is a number.
    pub rating: Option<String>,
    /// Whether it has a `rating` member at all.
    pub has_rating: bool,
    /// The text of its `user_ratings_total`, where that is a number.
    pub user_ratings_total: Option<String>,
    /// Its `place_id`, where that is a string.
    pub place_id: Option<String>,
    /// Its `name`, where that is a string.
    pub name: Option<String>,
}

/// The view of a [`NearbyResult`].
pub struct NearbyResultView {
    pub types: Seq<Seq<char>>,
    pub rating: Option<Seq<char>>,
    pub has_rating: bool,
    pub user_ratings_total: Option<Seq<char>>,
    pub place_id: Option<Seq<char>>,
    pub name: Option<Seq<char>>,
}

impl View for NearbyResult {
    type V = NearbyResultView;

    open spec fn view(&self) -> NearbyResultView {
        NearbyResultView {
            types: self.types@.map_values(|s: String| s@),
            rating: opt_view(self.rating),
            has_rating: self.has_rating,
            user_ratings_total: opt_view(self.user_ratings_total),
            place_id: opt_view(self.place_id),
            name: opt_view(self.name),
        }
    }
}

/// The text of a number value.
pub open spec fn spec_number_text(j: Json) -> Option<Seq<char>> {
    match j {
        Json::Number(n) => Some(n@),
        _ => None,
    }
}

/// The string entries of an array, in order (other entries can never equal
/// a place type).
pub open spec fn spec_string_entries(items: Seq<Json>) -> Seq<Seq<char>>
    decreases items.len(),
{
    if items.len() == 0 {
        Seq::empty()
    } else {
        let rest = spec_string_entries(items.drop_last());
        match items.last() {
            Json::Str(s) => rest.push(s@),
            _ => rest,
        }
    }
}

/// What is read of one search result: `None` where its `types` is no
/// array.
pub open spec fn spec_nearby_result(item: Json) -> Option<NearbyResultView> {
    match spec_at(item, "types"@) {
        Json::Array(ts) => Some(
            NearbyResultView {
                types: spec_string_entries(ts@),
                rating: spec_number_text(spec_at(item, "rating"@)),
                has_rating: spec_member(item, "rating"@) is Some,
                user_ratings_total: spec_number_text(spec_at(item, "user_ratings_total"@)),
                place_id: spec_member_str(item, "place_id"@),
                name: spec_member_str(item, "name"@),
            },
        ),
        _ => None,
    }
}

/// What is read of a nearby-search reply: each of its `results`, in order.
/// `None` where the reply is no JSON, `results` is no array, or one result's
/// `types` is no array.
pub open spec fn spec_nearby_results(parsed: Option<Json>) -> Option<Seq<NearbyResultView>> {
    match parsed {
        None => None,
        Some(j) => match spec_at(j, "results"@) {
            Json::Array(items) => {
                if forall|k: int|
                    0 <= k < items@.len() ==> (#[trigger] spec_nearby_result(items@[k])) is Some {
                    Some(Seq::new(items@.len(), |k: int| spec_nearby_result(items@[k])->0))
                } else {
                    None
                }
            },
            _ => None,
        },
    }
}

/// The text of a number value, if it is one.
pub fn number_text(j: &Json) -> (r: Option<String>)
    ensures
        opt_view(r) == spec_number_text(*j),
{
    match j {
        Json::Number(n) => Some(n.clone()),
        _ => None,
    }
}

/// The string entries of an array, in order.
pub fn string_entries(items: &Vec<Json>) -> (r: Vec<String>)
    ensures
        r@.map_values(|s: String| s@) == spec_string_entries(items@),
{
    let mut out: Vec<String> = Vec::new();
    let mut i: usize = 0;
    while i < items.len()
        invariant
            i <= items.len(),
            out@.map_values(|s: String| s@) == spec_string_entries(items@.take(i as int)),
        decreases items.len() - i,
    {
        assert(items@.take(i as int + 1).drop_last() =~= items@.take(i as int));
        assert(items@.take(i as int + 1).last() == items@[i as int]);
        match &items[i] {
            Json::Str(s) => {
                let ghost before = out@;
                out.push(s.clone());
                assert(out@.map_values(|s: String| s@) =~= before.map_values(|s: String| s@).push(
                    s@,
                ));
            },
            _ => {},
        }
        i = i + 1;
    }
    assert(items@.take(items.len() as int) =~= items@);
    out
}

/// Reads one search result.
pub fn nearby_result(item: &Json) -> (r: Option<NearbyResult>)
    ensures
        r is None <==> spec_nearby_result(*item) is None,
        r matches Some(x) ==> spec_nearby_result(*item) == Some(x@),
{
    let types = match member(item, "types") {
        Some(Json::Array(ts)) => string_entries(ts),
        Some(other) => {
            assert(spec_at(*item, "types"@) == *other);
            return None;
        },
        None => return None,
    };
    let null = Json::Null;
    let rating_value = match member(item, "rating") {
        Some(v) => v,
        None => &null,
    };
    let has_rating = match member(item, "rating") {
        Some(_) => true,
        None => false,
    };
    let total_value = match member(item, "user_ratings_total") {
        Some(v) => v,
        None => &null,
    };
    let place_id = match member_str(item, "place_id") {
        Some(s) => Some(s.clone()),
        None => None,
    };
    let name = match member_str(item, "name") {
        Some(s) => Some(s.clone()),
        None => None,
    };
    let r = NearbyResult {
        types,
        rating: number_text(rating_value),
        has_rating,
        user_ratings_total: number_text(total_value),
        place_id,
        name,
    };
    assert(r@ == spec_nearby_result(*item)->0);
    Some(r)
}

/// Reads a nearby-search reply: what the café choice needs of each result.
pub fn nearby_results(body: &[u8]) -> (r: Option<Vec<NearbyResult>>)
    ensures
        r is None <==> spec_nearby_results(spec_parse_json(body@)) is None,
        r matches Some(v) ==> spec_nearby_results(spec_parse_json(body@)) == Some(
            v@.map_values(|x: NearbyResult| x@),
        ),
{
    let j = match parse_json(body) {
        Some(j) => j,
        None => return None,
    };
    match member(&j, "results") {
        Some(Json::Array(items)) => {
            assert(spec_at(j, "results"@) == Json::Array(*items));
            let mut out: Vec<NearbyResult> = Vec::new();
            let mut i: usize = 0;
            while i < items.len()
                invariant
                    spec_parse_json(body@) == Some(j),
                    spec_at(j, "results"@) == Json::Array(*items),
                    i <= items.len(),
                    out.len() == i,
                    forall|k: int|
                        0 <= k < i ==> spec_nearby_result(items@[k]) == Some(#[trigger] out@[k]@),
                decreases items.len() - i,
            {
                match nearby_result(&items[i]) {
                    Some(x) => {
                        out.push(x);
                    },
                    None => {
                        assert(spec_nearby_result(items@[i as int]) is None);
                        return None;
                    },
                }
                i = i + 1;
            }
            assert forall|k: int| 0 <= k < items@.len() implies (#[trigger] spec_nearby_result(
                items@[k],
            )) is Some by {
                assert(spec_nearby_result(items@[k]) == Some(out@[k]@));
            }
            assert(out@.map_values(|x: NearbyResult| x@) =~= Seq::new(
                items@.len(),
                |k: int| spec_nearby_result(items@[k])->0,
            ));
            Some(out)
        },
        Some(other) => {
            assert(spec_at(j, "results"@) == *other);
            None
        },
        None => None,
    }
}


/// True when `t` is one of the nine place types a café search rules out:
/// hotel, lodge, lodging, gas station, convenience store, grocery or
/// supermarket, night club, restaurant and bar.
pub open spec fn is_listed_exclusion(t: Seq<char>) -> bool {
    t == "hotel"@ || t == "lodge"@ || t == "lodging"@ || t == "gas_station"@
        || t == "convenience_store"@ || t == "grocery_or_supermarket"@ || t == "night_club"@
        || t == "restaurant"@ || t == "bar"@
}

/// A type rules a result out exactly when it is one of the nine listed
/// types: every other type, such as `cafe`, `food`, `point_of_interest` or
/// `establishment`, rules nothing out.
pub proof fn lemma_only_listed_types_exclude(t: Seq<char>)
    ensures
        spec_is_excluded_type(t) <==> is_listed_exclusion(t),
        !is_listed_exclusion(t) ==> !spec_is_excluded_type(t),
{
}

/// A well-rated result none of whose types is one of the nine listed types
/// is kept; a result with a listed type, or not rated well, is not.
pub proof fn lemma_kept_exactly(p: PlaceCandidate)
    ensures
        (p.rated_well && forall|k: int|
            0 <= k < p.types@.len() ==> !is_listed_exclusion(#[trigger] p.types@[k]@))
            ==> spec_place_kept(p),
        (exists|k: int| 0 <= k < p.types@.len() && is_listed_exclusion(#[trigger] p.types@[k]@))
            ==> !spec_place_kept(p),
        !p.rated_well ==> !spec_place_kept(p),
{
    if exists|k: int| 0 <= k < p.types@.len() && is_listed_exclusion(#[trigger] p.types@[k]@) {
        let k = choose|k: int| 0 <= k < p.types@.len() && is_listed_exclusion(#[trigger] p.types@[k]@);
        assert(spec_is_excluded_type(p.types@[k]@));
    }
}

/// Whenever some result passes the filter — rated well and without a listed
/// type — the pick finds a café: the kept list is not empty.
pub proof fn lemma_some_place_kept(places: Seq<PlaceCandidate>, i: int)
    requires
        places.len() <= usize::MAX,
        0 <= i < places.len(),
        places[i].rated_well,
        forall|k: int|
            0 <= k < places[i].types@.len() ==> !is_listed_exclusion(#[trigger] places[i].types@[k]@),
    ensures
        kept_place_indices(places).contains(i as usize),
        kept_place_indices(places).len() > 0,
{
    lemma_kept_exactly(places[i]);
    lemma_kept_indices(places);
    assert(kept_place_indices(places).contains(i as usize));
}

} // verus!
