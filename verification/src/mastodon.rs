use vstd::prelude::*;
use vstd::string::*;
use vstd::utf8::{decode_utf8, valid_utf8};
use crate::json::{json_to_text, member_str, parse_json_text, spec_json_text_of, spec_member_str, spec_parse_json_text, Json};
use crate::text::str_from_utf8;
use vstd::utf8::encode_utf8;
use crate::multipart::{
    closing_bytes, has_file_part, image_jpeg, is_multipart_boundary, multipart_add_stream,
    multipart_add_text, multipart_body, multipart_fields, multipart_new, multipart_prepare,
    prepared_boundary, prepared_boundary_text, prepared_bytes, prepared_read_all, stream_head,
    stream_section, text_part_bytes, text_section, FormPart,
};

verus! {

/// The media-upload endpoint of a Mastodon instance.
pub open spec fn spec_media_upload_url(host: Seq<char>) -> Seq<char> {
    "https://"@ + host + "/api/v2/media"@
}

/// The status-posting endpoint of a Mastodon instance.
pub open spec fn spec_statuses_url(host: Seq<char>) -> Seq<char> {
    "https://"@ + host + "/api/v1/statuses"@
}

/// The `Authorization` header value for an access token.
pub open spec fn spec_bearer(token: Seq<char>) -> Seq<char> {
    "Bearer "@ + token
}

/// The `Content-Type` header value of a multipart body.
pub open spec fn spec_multipart_content_type(boundary: Seq<char>) -> Seq<char> {
    "multipart/form-data; boundary="@ + boundary
}

/// The stars of a rating: one full star per whole point, and one hollow
/// star when there is a fraction left.
pub open spec fn spec_rating_stars(full: nat, has_fraction: bool) -> Seq<char> {
    Seq::new(full, |i: int| '★') + if has_fraction { seq!['☆'] } else { Seq::empty() }
}

/// The text of the post about a café.
pub open spec fn spec_status_text(
    name: Seq<char>,
    address: Seq<char>,
    stars: Seq<char>,
    lat: Seq<char>,
    lng: Seq<char>,
    place_id: Seq<char>,
) -> Seq<char> {
    name + "\n"@ + address + "\n"@ + stars + "\nhttps://www.google.com/maps/search/?api=1&query="@
        + lat + ","@ + lng + "&query_place_id="@ + place_id + "\n#coffee #cafe"@
}

/// Builds the media-upload endpoint.
pub fn media_upload_url(host: &str) -> (r: String)
    ensures
        r@ == spec_media_upload_url(host@),
{
    let mut s = "https://".to_owned();
    s.append(host);
    s.append("/api/v2/media");
    s
}

/// Builds the status-posting endpoint.
pub fn statuses_url(host: &str) -> (r: String)
    ensures
        r@ == spec_statuses_url(host@),
{
    let mut s = "https://".to_owned();
    s.append(host);
    s.append("/api/v1/statuses");
    s
}

/// Builds the `Authorization` header value.
pub fn bearer(token: &str) -> (r: String)
    ensures
        r@ == spec_bearer(token@),
{
    let mut s = "Bearer ".to_owned();
    s.append(token);
    s
}

/// Builds the `Content-Type` header value of a multipart body.
pub fn multipart_content_type(boundary: &str) -> (r: String)
    ensures
        r@ == spec_multipart_content_type(boundary@),
{
    let mut s = "multipart/form-data; boundary=".to_owned();
    s.append(boundary);
    s
}

/// Writes a rating as stars: `full` full stars, then a hollow one when
/// `has_fraction`.
pub fn rating_stars(full: usize, has_fraction: bool) -> (r: String)
    ensures
        r@ == spec_rating_stars(full as nat, has_fraction),
{
    proof {
        reveal_strlit("★");
        reveal_strlit("☆");
    }
    let mut s = String::new();
    let mut i: usize = 0;
    while i < full
        invariant
            i <= full,
            s@ == Seq::new(i as nat, |k: int| '★'),
            "★"@ == seq!['★'],
        decreases full - i,
    {
        s.append("★");
        assert(Seq::new(i as nat, |k: int| '★') + seq!['★'] =~= Seq::new((i + 1) as nat, |k: int| '★'));
        i = i + 1;
    }
    if has_fraction {
        s.append("☆");
    }
    assert(s@ =~= spec_rating_stars(full as nat, has_fraction));
    s
}

/// Builds the text of the post about a café (the coordinates as decimal
/// text).
pub fn status_text(
    name: &str,
    address: &str,
    stars: &str,
    lat: &str,
    lng: &str,
    place_id: &str,
) -> (r: String)
    ensures
        r@ == spec_status_text(name@, address@, stars@, lat@, lng@, place_id@),
{
    let mut s = name.to_owned();
    s.append("\n");
    s.append(address);
    s.append("\n");
    s.append(stars);
    s.append("\nhttps://www.google.com/maps/search/?api=1&query=");
    s.append(lat);
    s.append(",");
    s.append(lng);
    s.append("&query_place_id=");
    s.append(place_id);
    s.append("\n#coffee #cafe");
    s
}

/// One picture upload to Mastodon, ready to send as a `POST`.
pub struct MediaUpload {
    pub url: String,
    pub authorization: String,
    pub boundary: String,
    pub content_type: String,
    pub body: Vec<u8>,
}

/// The fields of a picture upload: a text field `foo` = `bar`, then the
/// picture as field `file` with file name `file` and type `image/jpeg`.
pub open spec fn upload_parts(image: Seq<u8>) -> Seq<FormPart> {
    seq![
        FormPart::Text { name: "foo"@, text: "bar"@ },
        FormPart::Stream { name: "file"@, data: image, filename: Some("file"@), mime: "image/jpeg"@ },
    ]
}

/// The body of a picture upload with boundary `b`: the text field, the
/// head of the picture field, the picture's bytes, the closing line.
pub open spec fn spec_upload_body(b: Seq<char>, image: Seq<u8>) -> Seq<u8> {
    text_part_bytes(b, "foo"@, "bar"@) + encode_utf8(
        stream_head(b, "file"@, Some("file"@), "image/jpeg"@),
    ) + image + closing_bytes(b)
}

/// The upload's fields are written as [`spec_upload_body`].
pub proof fn lemma_upload_body(b: Seq<char>, image: Seq<u8>)
    ensures
        !has_file_part(upload_parts(image)),
        multipart_body(b, upload_parts(image)) == spec_upload_body(b, image),
{
    let parts = upload_parts(image);
    let first = parts.drop_last();
    assert(first.drop_last() =~= Seq::<FormPart>::empty());
    assert(first =~= seq![FormPart::Text { name: "foo"@, text: "bar"@ }]);
    assert(text_section(b, first.drop_last()) =~= Seq::<u8>::empty());
    assert(stream_section(b, first.drop_last()) =~= Seq::<u8>::empty());
    assert(first.last() == FormPart::Text { name: "foo"@, text: "bar"@ });
    assert(text_section(b, first) =~= text_part_bytes(b, "foo"@, "bar"@));
    assert(text_section(b, parts) =~= text_part_bytes(b, "foo"@, "bar"@));
    assert(stream_section(b, first) =~= Seq::<u8>::empty());
    assert(stream_section(b, parts) =~= encode_utf8(
        stream_head(b, "file"@, Some("file"@), "image/jpeg"@),
    ) + image);
    assert(multipart_body(b, parts) =~= spec_upload_body(b, image));
    assert forall|i: int| 0 <= i < parts.len() implies !(#[trigger] parts[i] is File) by {
        if i == 0 {
            assert(parts[0] == FormPart::Text { name: "foo"@, text: "bar"@ });
        } else {
            assert(parts[1] == FormPart::Stream {
                name: "file"@,
                data: image,
                filename: Some("file"@),
                mime: "image/jpeg"@,
            });
        }
    }
}

/// Prepares the upload of one JPEG picture: a multipart form with a text
/// field `foo` = `bar` and the picture as field `file` (file name `file`,
/// type `image/jpeg`), sent to the instance's media endpoint with the token.
/// The boundary is drawn at random by `multipart-2021` and named in the
/// content type; the body holds the picture exactly.
pub fn media_upload_request(host: &str, token: &str, image: &[u8]) -> (r: MediaUpload)
    ensures
        r.url@ == spec_media_upload_url(host@),
        r.authorization@ == spec_bearer(token@),
        is_multipart_boundary(r.boundary@),
        r.content_type@ == spec_multipart_content_type(r.boundary@),
        r.body@ == spec_upload_body(r.boundary@, image@),
{
    let mut form = multipart_new();
    multipart_add_text(&mut form, "foo", "bar");
    multipart_add_stream(&mut form, "file", image, "file", image_jpeg());
    let ghost parts = multipart_fields(form);
    proof {
        assert(parts =~= upload_parts(image@));
        lemma_upload_body(Seq::empty(), image@);
    }
    let url = media_upload_url(host);
    let authorization = bearer(token);
    match multipart_prepare(&mut form) {
        Some(mut prepared) => {
            proof {
                lemma_upload_body(prepared_boundary_text(prepared), image@);
            }
            let boundary = prepared_boundary(&prepared);
            let body = prepared_read_all(&mut prepared);
            let content_type = multipart_content_type(boundary.as_str());
            MediaUpload { url, authorization, boundary, content_type, body }
        },
        None => {
            proof {
                assert(false);
            }
            let boundary = String::new();
            let content_type = multipart_content_type(boundary.as_str());
            MediaUpload { url, authorization, boundary, content_type, body: Vec::new() }
        },
    }
}

/// The media id in the reply to an upload: the reply read as UTF-8 text,
/// that text read as JSON, and its string member `id`; `None` where any
/// step fails.
pub open spec fn spec_media_id(body: Seq<u8>) -> Option<Seq<char>> {
    if valid_utf8(body) {
        match spec_parse_json_text(decode_utf8(body)) {
            Some(j) => spec_member_str(j, "id"@),
            None => None,
        }
    } else {
        None
    }
}

/// Reads the media id from the reply to an upload.
pub fn media_id(body: &[u8]) -> (r: Option<String>)
    ensures
        r is None <==> spec_media_id(body@) is None,
        r matches Some(s) ==> spec_media_id(body@) == Some(s@),
{
    let text = match str_from_utf8(body) {
        Some(t) => t,
        None => return None,
    };
    match parse_json_text(text) {
        Some(j) => match member_str(&j, "id") {
            Some(s) => Some(s.clone()),
            None => None,
        },
        None => None,
    }
}


/// Whether `j` is the body of a post: an object with the members `status`
/// (the text), `visibility` `public`, `language` `eng` and `media_ids` (the
/// ids of the uploaded pictures, in order).
pub open spec fn is_status_json(j: Json, text: Seq<char>, media_ids: Seq<String>) -> bool {
    match j {
        Json::Object(e) => {
            &&& e@.len() == 4
            &&& e@[0].0@ == "status"@
            &&& e@[0].1 matches Json::Str(s) && s@ == text
            &&& e@[1].0@ == "visibility"@
            &&& e@[1].1 matches Json::Str(s) && s@ == "public"@
            &&& e@[2].0@ == "language"@
            &&& e@[2].1 matches Json::Str(s) && s@ == "eng"@
            &&& e@[3].0@ == "media_ids"@
            &&& e@[3].1 matches Json::Array(a) && a@.len() == media_ids.len() && forall|i: int|
                0 <= i < a@.len() ==> (#[trigger] a@[i] matches Json::Str(s) && s@ == media_ids[i]@)
        },
        _ => false,
    }
}

/// The text of a post's body: the JSON of [`is_status_json`] as
/// `serde_json` writes it; `None` where serde_json reports an error.
pub fn status_body(text: &str, media_ids: &Vec<String>) -> (r: Option<String>)
    ensures
        exists|j: Json|
            #![trigger is_status_json(j, text@, media_ids@)]
            is_status_json(j, text@, media_ids@) && (r is Some <==> spec_json_text_of(j) is Some)
                && (r matches Some(s) ==> spec_json_text_of(j) == Some(s@)),
{
    let mut ids: Vec<Json> = Vec::new();
    let mut i: usize = 0;
    while i < media_ids.len()
        invariant
            i <= media_ids.len(),
            ids.len() == i,
            forall|k: int|
                0 <= k < i ==> (#[trigger] ids@[k] matches Json::Str(s) && s@ == media_ids@[k]@),
        decreases media_ids.len() - i,
    {
        ids.push(Json::Str(media_ids[i].clone()));
        i = i + 1;
    }
    let mut entries: Vec<(String, Json)> = Vec::new();
    entries.push(("status".to_owned(), Json::Str(text.to_owned())));
    entries.push(("visibility".to_owned(), Json::Str("public".to_owned())));
    entries.push(("language".to_owned(), Json::Str("eng".to_owned())));
    entries.push(("media_ids".to_owned(), Json::Array(ids)));
    let j = Json::Object(entries);
    let r = json_to_text(&j);
    assert(is_status_json(j, text@, media_ids@));
    r
}


/// The stars of a rating have one full star per whole point, whatever the
/// number of points, then one hollow star exactly when there is a fraction.
pub proof fn lemma_rating_stars_shape(full: nat, has_fraction: bool)
    ensures
        spec_rating_stars(full, has_fraction).len() == full + if has_fraction { 1nat } else { 0nat },
        forall|i: int| 0 <= i < full ==> #[trigger] spec_rating_stars(full, has_fraction)[i] == '★',
        has_fraction ==> spec_rating_stars(full, has_fraction)[full as int] == '☆',
{
}

} // verus!
