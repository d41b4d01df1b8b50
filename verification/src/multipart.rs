use vstd::prelude::*;
use vstd::utf8::encode_utf8;
use mime::Mime;
use multipart_2021::client::lazy::{Multipart, PreparedFields};
use std::io::Read;

verus! {

/// A MIME type of the `mime` crate.
#[verifier::external_type_specification]
#[verifier::external_body]
pub struct ExMime(Mime);

/// A lazily built `multipart/form-data` request of `multipart-2021`.
#[verifier::external_type_specification]
#[verifier::external_body]
pub struct ExMultipart<'n, 'd>(Multipart<'n, 'd>);

/// The prepared body of such a request, readable as bytes.
#[verifier::external_type_specification]
#[verifier::external_body]
pub struct ExPreparedFields<'d>(PreparedFields<'d>);

/// One field of a multipart form.
pub enum FormPart {
    /// A text field.
    Text { name: Seq<char>, text: Seq<char> },
    /// A field whose content is read from a stream of bytes.
    Stream { name: Seq<char>, data: Seq<u8>, filename: Option<Seq<char>>, mime: Seq<char> },
    /// A field whose content is a file on disk.
    File { name: Seq<char> },
}

/// The fields added to a request, in the order they were added.
pub uninterp spec fn multipart_fields(form: Multipart) -> Seq<FormPart>;

/// The text of a MIME type, as it is written into a body.
pub uninterp spec fn mime_text(m: Mime) -> Seq<char>;

/// The boundary a prepared body was written with (empty for a body
/// without fields).
pub uninterp spec fn prepared_boundary_text(body: PreparedFields) -> Seq<char>;

/// The bytes a prepared body yields when read to its end, where they are
/// fixed in memory; `None` for a body with file fields, whose bytes come
/// from disk.
pub uninterp spec fn prepared_bytes(body: PreparedFields) -> Option<Seq<u8>>;

/// True for the characters a boundary is drawn from: ASCII letters and
/// digits.
pub open spec fn is_boundary_char(c: char) -> bool {
    ('a' <= c && c <= 'z') || ('A' <= c && c <= 'Z') || ('0' <= c && c <= '9')
}

/// A boundary as `multipart-2021` draws it: sixteen ASCII letters and
/// digits.
pub open spec fn is_multipart_boundary(b: Seq<char>) -> bool {
    b.len() == 16 && forall|i: int| 0 <= i < b.len() ==> is_boundary_char(#[trigger] b[i])
}

/// Whether one of the fields is a file field.
pub open spec fn has_file_part(parts: Seq<FormPart>) -> bool {
    exists|i: int| 0 <= i < parts.len() && #[trigger] parts[i] is File
}

/// The bytes of a text field: a boundary line, its disposition, a blank
/// line and the text.
pub open spec fn text_part_bytes(b: Seq<char>, name: Seq<char>, text: Seq<char>) -> Seq<u8> {
    encode_utf8(
        "\r\n--"@ + b + "\r\nContent-Disposition: form-data; name=\""@ + name + "\"\r\n\r\n"@
            + text,
    )
}

/// The head of a stream field: a boundary line, its disposition with the
/// file name if any, its content type and a blank line.
pub open spec fn stream_head(
    b: Seq<char>,
    name: Seq<char>,
    filename: Option<Seq<char>>,
    mime: Seq<char>,
) -> Seq<char> {
    "\r\n--"@ + b + "\r\nContent-Disposition: form-data; name=\""@ + name + "\""@ + match filename {
        Some(f) => "; filename=\""@ + f + "\""@,
        None => Seq::empty(),
    } + "\r\nContent-Type: "@ + mime + "\r\n\r\n"@
}

/// The text fields, in the order they were added.
pub open spec fn text_section(b: Seq<char>, parts: Seq<FormPart>) -> Seq<u8>
    decreases parts.len(),
{
    if parts.len() == 0 {
        Seq::empty()
    } else {
        text_section(b, parts.drop_last()) + match parts.last() {
            FormPart::Text { name, text } => text_part_bytes(b, name, text),
            _ => Seq::empty(),
        }
    }
}

/// The stream fields, each head followed by the data, in the reverse order
/// of adding.
pub open spec fn stream_section(b: Seq<char>, parts: Seq<FormPart>) -> Seq<u8>
    decreases parts.len(),
{
    if parts.len() == 0 {
        Seq::empty()
    } else {
        let last = match parts.last() {
            FormPart::Stream { name, data, filename, mime } => encode_utf8(
                stream_head(b, name, filename, mime),
            ) + data,
            _ => Seq::empty(),
        };
        last + stream_section(b, parts.drop_last())
    }
}

/// The closing boundary line.
pub open spec fn closing_bytes(b: Seq<char>) -> Seq<u8> {
    encode_utf8("\r\n--"@ + b + "--"@)
}

/// The bytes of a body without file fields, as `PreparedFields` writes
/// them: the text fields, then the stream fields, then the closing line;
/// nothing at all for a form without fields.
pub open spec fn multipart_body(b: Seq<char>, parts: Seq<FormPart>) -> Seq<u8> {
    if parts.len() == 0 {
        Seq::empty()
    } else {
        text_section(b, parts) + stream_section(b, parts) + closing_bytes(b)
    }
}

/// `Multipart::new()`: a request without fields.
#[verifier::external_body]
pub(crate) fn multipart_new<'n, 'd>() -> (r: Multipart<'n, 'd>)
    ensures
        multipart_fields(r) == Seq::<FormPart>::empty(),
{
    Multipart::new()
}

/// `Multipart::add_text(name, text)`: appends a text field.
#[verifier::external_body]
pub(crate) fn multipart_add_text<'n, 'd>(form: &mut Multipart<'n, 'd>, name: &'n str, text: &'d str)
    ensures
        multipart_fields(*final(form)) == multipart_fields(*old(form)).push(
            FormPart::Text { name: name@, text: text@ },
        ),
{
    form.add_text(name, text);
}

/// `Multipart::add_stream(name, data, Some(filename), Some(mime))`: appends
/// a field whose content is the bytes of `data`.
#[verifier::external_body]
pub(crate) fn multipart_add_stream<'n, 'd>(
    form: &mut Multipart<'n, 'd>,
    name: &'n str,
    data: &'d [u8],
    filename: &'n str,
    mime: Mime,
)
    ensures
        multipart_fields(*final(form)) == multipart_fields(*old(form)).push(
            FormPart::Stream {
                name: name@,
                data: data@,
                filename: Some(filename@),
                mime: mime_text(mime),
            },
        ),
{
    form.add_stream(name, data, Some(filename), Some(mime));
}

/// `mime::IMAGE_JPEG`, written as `image/jpeg`.
#[verifier::external_body]
pub(crate) fn image_jpeg() -> (r: Mime)
    ensures
        mime_text(r) == "image/jpeg"@,
{
    mime::IMAGE_JPEG
}

/// `Multipart::prepare()`: moves all fields of the request into a prepared
/// body, with a boundary drawn at random (sixteen ASCII letters and digits;
/// none for a form without fields). It fails only when a file field cannot
/// be opened; either way the request is left without fields. For a form
/// without file fields the body's bytes are [`multipart_body`] of that
/// boundary. The error value is dropped.
#[verifier::external_body]
pub(crate) fn multipart_prepare<'n, 'd>(form: &mut Multipart<'n, 'd>) -> (r: Option<PreparedFields<'d>>)
    ensures
        !has_file_part(multipart_fields(*old(form))) ==> r is Some,
        r matches Some(body) ==> if multipart_fields(*old(form)).len() > 0 {
            is_multipart_boundary(prepared_boundary_text(body))
        } else {
            prepared_boundary_text(body).len() == 0
        },
        r matches Some(body) ==> prepared_bytes(body) == if has_file_part(
            multipart_fields(*old(form)),
        ) {
            None
        } else {
            Some(multipart_body(prepared_boundary_text(body), multipart_fields(*old(form))))
        },
        multipart_fields(*final(form)) == Seq::<FormPart>::empty(),
{
    form.prepare().ok()
}

/// `PreparedFields::boundary()`: the boundary the body was written with.
/// For a body without fields the crate's slicing would panic, so it is not
/// asked then.
#[verifier::external_body]
pub(crate) fn prepared_boundary(body: &PreparedFields) -> (r: String)
    requires
        prepared_boundary_text(*body).len() > 0,
    ensures
        r@ == prepared_boundary_text(*body),
{
    body.boundary().to_string()
}

/// `Read::read_to_end` on a prepared body: all its bytes. A body without
/// file fields reads from memory, which never fails, so there the ignored
/// result is `Ok` and the bytes are those prepared; of a body with file
/// fields nothing is claimed.
#[verifier::external_body]
pub(crate) fn prepared_read_all(body: &mut PreparedFields) -> (r: Vec<u8>)
    ensures
        prepared_bytes(*old(body)) matches Some(b) ==> r@ == b,
{
    let mut bytes = Vec::new();
    let _ = body.read_to_end(&mut bytes);
    bytes
}

} // verus!
