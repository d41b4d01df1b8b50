use vstd::prelude::*;
use vstd::string::*;
use crate::text::text_equals;
use crate::json::{member, member_str, parse_json, spec_at, spec_member_str, spec_parse_json, Json};

verus! {

/// The nearby-search request for cafés around a point (the coordinates as
/// decimal text).
pub open spec fn spec_nearby_search_url(lat: Seq<char>, lng: Seq<char>, key: Seq<char>) -> Seq<char> {
    "https://maps.googleapis.com/maps/api/place/nearbysearch/json?location="@ + lat + ","@ + lng
        + "&radius=50000&type=cafe&keyword=coffee&key="@ + key
}

/// The place-details request asking for the photos and the address.
pub open spec fn spec_place_details_url(place_id: Seq<char>, key: Seq<char>) -> Seq<char> {
    "https://maps.googleapis.com/maps/api/place/details/json?place_id="@ + place_id
        + "&fields=photos,formatted_address&key="@ + key
}

/// The street-view metadata request for a point.
pub open spec fn spec_street_view_metadata_url(
    lat: Seq<char>,
    lng: Seq<char>,
    key: Seq<char>,
) -> Seq<char> {
    "https://maps.googleapis.com/maps/api/streetview/metadata?size=640x640&location="@ + lat
        + ","@ + lng + "&key="@ + key
}

/// The street-view picture of a point; the key is appended when fetching.
pub open spec fn spec_street_view_image_url(lat: Seq<char>, lng: Seq<char>) -> Seq<char> {
    "https://maps.googleapis.com/maps/api/streetview?size=640x640&return_error_codes=true&location="@
        + lat + ","@ + lng + "&key="@
}

/// A place photo; the key is appended when fetching.
pub open spec fn spec_photo_url(reference: Seq<char>) -> Seq<char> {
    "https://maps.googleapis.com/maps/api/place/photo?maxwidth=640&photoreference="@ + reference
        + "&key="@
}

/// At most this many photos of a place are used.
pub const MAX_PHOTOS: usize = 4;

/// How many of `available` photos are used.
pub open spec fn spec_photo_count(available: nat) -> nat {
    if available < MAX_PHOTOS {
        available
    } else {
        MAX_PHOTOS as nat
    }
}

/// Builds the nearby-search request.
pub fn nearby_search_url(lat: &str, lng: &str, key: &str) -> (r: String)
    ensures
        r@ == spec_nearby_search_url(lat@, lng@, key@),
{
    let mut s = "https://maps.googleapis.com/maps/api/place/nearbysearch/json?location=".to_owned();
    s.append(lat);
    s.append(",");
    s.append(lng);
    s.append("&radius=50000&type=cafe&keyword=coffee&key=");
    s.append(key);
    s
}

/// Builds the place-details request.
pub fn place_details_url(place_id: &str, key: &str) -> (r: String)
    ensures
        r@ == spec_place_details_url(place_id@, key@),
{
    let mut s = "https://maps.googleapis.com/maps/api/place/details/json?place_id=".to_owned();
    s.append(place_id);
    s.append("&fields=photos,formatted_address&key=");
    s.append(key);
    s
}

/// Builds the street-view metadata request.
pub fn street_view_metadata_url(lat: &str, lng: &str, key: &str) -> (r: String)
    ensures
        r@ == spec_street_view_metadata_url(lat@, lng@, key@),
{
    let mut s = "https://maps.googleapis.com/maps/api/streetview/metadata?size=640x640&location=".to_owned();
    s.append(lat);
    s.append(",");
    s.append(lng);
    s.append("&key=");
    s.append(key);
    s
}

/// Builds the street-view picture address.
pub fn street_view_image_url(lat: &str, lng: &str) -> (r: String)
    ensures
        r@ == spec_street_view_image_url(lat@, lng@),
{
    let mut s = "https://maps.googleapis.com/maps/api/streetview?size=640x640&return_error_codes=true&location=".to_owned();
    s.append(lat);
    s.append(",");
    s.append(lng);
    s.append("&key=");
    s
}

/// Whether the street-view metadata promises a picture: unless its
/// `status` is the string `ZERO_RESULT` (a missing or non-string status
/// does not rule the picture out).
pub fn has_street_image(status: &Option<String>) -> (r: bool)
    ensures
        r == !(status matches Some(s) && s@ == "ZERO_RESULT"@),
{
    match status {
        Some(s) => !text_equals(s.as_str(), "ZERO_RESULT"),
        None => true,
    }
}

/// Builds the address of one place photo.
pub fn photo_url(reference: &str) -> (r: String)
    ensures
        r@ == spec_photo_url(reference@),
{
    let mut s = "https://maps.googleapis.com/maps/api/place/photo?maxwidth=640&photoreference=".to_owned();
    s.append(reference);
    s.append("&key=");
    s
}

/// How many of the place's photos are used: all of them, up to four.
pub fn photo_count(available: usize) -> (r: usize)
    ensures
        r == spec_photo_count(available as nat),
        r <= MAX_PHOTOS,
{
    if available < MAX_PHOTOS {
        available
    } else {
        MAX_PHOTOS
    }
}

/// The addresses of the photos used, in order: one for each of the first
/// (at most four) references.
pub fn photo_urls(references: &Vec<String>) -> (r: Vec<String>)
    ensures
        r.len() == spec_photo_count(references.len() as nat),
        forall|i: int| 0 <= i < r.len() ==> #[trigger] r@[i]@ == spec_photo_url(references@[i]@),
{
    let n = photo_count(references.len());
    let mut out: Vec<String> = Vec::new();
    let mut i: usize = 0;
    while i < n
        invariant
            n == spec_photo_count(references.len() as nat),
            n <= references.len(),
            i <= n,
            out.len() == i,
            forall|k: int| 0 <= k < i ==> #[trigger] out@[k]@ == spec_photo_url(references@[k]@),
        decreases n - i,
    {
        out.push(photo_url(references[i].as_str()));
        i = i + 1;
    }
    out
}


/// The `photo_reference` text of one entry of a place's photos.
pub open spec fn spec_photo_reference(photo: Json) -> Option<Seq<char>> {
    spec_member_str(photo, "photo_reference"@)
}

/// What is read from a place-details reply: the `formatted_address` of its
/// `result` and the `photo_reference` of the first (at most four) of its
/// `photos`. `None` where the reply is no JSON, the address is no string,
/// the photos are no array, or one of the used photos has no string
/// reference.
pub open spec fn spec_place_details(parsed: Option<Json>) -> Option<(Seq<char>, Seq<Seq<char>>)> {
    match parsed {
        None => None,
        Some(j) => {
            let result = spec_at(j, "result"@);
            match spec_member_str(result, "formatted_address"@) {
                None => None,
                Some(address) => match spec_at(result, "photos"@) {
                    Json::Array(photos) => {
                        let n = spec_photo_count(photos@.len());
                        if forall|i: int|
                            0 <= i < n ==> (#[trigger] spec_photo_reference(photos@[i])) is Some {
                            Some(
                                (
                                    address,
                                    Seq::new(n, |i: int| spec_photo_reference(photos@[i])->0),
                                ),
                            )
                        } else {
                            None
                        }
                    },
                    _ => None,
                },
            }
        },
    }
}

/// Reads a place-details reply: the address and the references of the
/// photos used.
pub fn place_details(body: &[u8]) -> (r: Option<(String, Vec<String>)>)
    ensures
        r is None <==> spec_place_details(spec_parse_json(body@)) is None,
        r matches Some((address, refs)) ==> spec_place_details(spec_parse_json(body@)) == Some(
            (address@, refs@.map_values(|s: String| s@)),
        ),
{
    let parsed = parse_json(body);
    let j = match parsed {
        Some(j) => j,
        None => return None,
    };
    let null = Json::Null;
    let result = match member(&j, "result") {
        Some(x) => x,
        None => &null,
    };
    assert(*result == spec_at(j, "result"@));
    let address = match member_str(result, "formatted_address") {
        Some(a) => a.clone(),
        None => return None,
    };
    match member(result, "photos") {
        Some(Json::Array(photos)) => {
            assert(spec_at(*result, "photos"@) == Json::Array(*photos));
            let n = photo_count(photos.len());
            let mut refs: Vec<String> = Vec::new();
            let mut i: usize = 0;
            while i < n
                invariant
                    spec_parse_json(body@) == Some(j),
                    *result == spec_at(j, "result"@),
                    spec_member_str(*result, "formatted_address"@) == Some(address@),
                    spec_at(*result, "photos"@) == Json::Array(*photos),
                    n == spec_photo_count(photos@.len()),
                    n <= photos.len(),
                    i <= n,
                    refs.len() == i,
                    forall|k: int|
                        0 <= k < i ==> spec_photo_reference(photos@[k]) == Some(
                            #[trigger] refs@[k]@,
                        ),
                decreases n - i,
            {
                match member_str(&photos[i], "photo_reference") {
                    Some(s) => {
                        refs.push(s.clone());
                    },
                    None => {
                        assert(spec_photo_reference(photos@[i as int]) is None);
                        return None;
                    },
                }
                i = i + 1;
            }
            assert forall|k: int| 0 <= k < n implies (#[trigger] spec_photo_reference(
                photos@[k],
            )) is Some by {
                assert(spec_photo_reference(photos@[k]) == Some(refs@[k]@));
            }
            assert(refs@.map_values(|s: String| s@) =~= Seq::new(
                n as nat,
                |k: int| spec_photo_reference(photos@[k])->0,
            ));
            Some((address, refs))
        },
        Some(other) => {
            assert(spec_at(*result, "photos"@) == *other);
            None
        },
        None => {
            assert(spec_at(*result, "photos"@) == Json::Null);
            None
        },
    }
}

/// The `status` string of a street-view metadata reply: `None` where the
/// reply is no JSON, else the status text where there is one.
pub fn street_view_status(body: &[u8]) -> (r: Option<Option<String>>)
    ensures
        r is None <==> spec_parse_json(body@) is None,
        r matches Some(st) ==> (spec_parse_json(body@) matches Some(j) && (st is None
            <==> spec_member_str(j, "status"@) is None) && (st matches Some(s)
            ==> spec_member_str(j, "status"@) == Some(s@))),
{
    match parse_json(body) {
        Some(j) => match member_str(&j, "status") {
            Some(s) => Some(Some(s.clone())),
            None => Some(None),
        },
        None => None,
    }
}


/// Every photo is used while there are fewer than four, and never more
/// than four: the count is at most what is available and at most four, and
/// it falls short of what is available only when it is four.
pub proof fn lemma_photo_count_is_min(available: nat)
    ensures
        spec_photo_count(available) <= available,
        spec_photo_count(available) <= 4,
        spec_photo_count(available) < available ==> spec_photo_count(available) == 4,
        available <= 4 ==> spec_photo_count(available) == available,
{
}

} // verus!
