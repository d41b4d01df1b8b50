use vstd::prelude::*;
use vstd::utf8::{decode_utf8, valid_utf8};
use crate::text::{parse_u64, spec_parse_u64, string_from_utf8};

verus! {

/// What the fortune client does with the status of the answer it got.
#[derive(PartialEq, Eq, Structural, Debug, Clone, Copy)]
pub enum FortuneOutcome {
    /// The status is 200: read the body, whose length the
    /// `content-length` header gives.
    ReadBody,
    /// Any other status: fail with this code (404 and 500 are passed on,
    /// every other status becomes 0).
    Failed(u32),
}

/// The outcome for an HTTP status.
pub open spec fn spec_fortune_outcome(status: u16) -> FortuneOutcome {
    if status == 200 {
        FortuneOutcome::ReadBody
    } else if status == 404 {
        FortuneOutcome::Failed(404)
    } else if status == 500 {
        FortuneOutcome::Failed(500)
    } else {
        FortuneOutcome::Failed(0)
    }
}

/// Decides what to do with the status of the fortune service's answer.
pub fn fortune_outcome(status: u16) -> (r: FortuneOutcome)
    ensures
        r == spec_fortune_outcome(status),
{
    match status {
        200 => FortuneOutcome::ReadBody,
        404 => FortuneOutcome::Failed(404),
        500 => FortuneOutcome::Failed(500),
        _ => FortuneOutcome::Failed(0),
    }
}

/// The bytes of all values of a header, one after the other.
pub open spec fn joined_bytes(values: Seq<Vec<u8>>) -> Seq<u8>
    decreases values.len(),
{
    if values.len() == 0 {
        Seq::empty()
    } else {
        joined_bytes(values.drop_last()) + values.last()@
    }
}

/// The length a `content-length` header states: its values joined, read as
/// UTF-8 text, and that text read as a decimal `u64`; `None` where either
/// step fails.
pub open spec fn spec_content_length(values: Seq<Vec<u8>>) -> Option<u64> {
    let bytes = joined_bytes(values);
    if valid_utf8(bytes) {
        spec_parse_u64(decode_utf8(bytes))
    } else {
        None
    }
}

/// Joins the values of a header into one byte string.
pub fn join_header_values(values: &Vec<Vec<u8>>) -> (r: Vec<u8>)
    ensures
        r@ == joined_bytes(values@),
{
    let mut joined: Vec<u8> = Vec::new();
    let mut i: usize = 0;
    while i < values.len()
        invariant
            i <= values.len(),
            joined@ == joined_bytes(values@.take(i as int)),
        decreases values.len() - i,
    {
        let part = &values[i];
        let ghost before = joined@;
        let mut j: usize = 0;
        while j < part.len()
            invariant
                j <= part.len(),
                joined@ == before + part@.take(j as int),
            decreases part.len() - j,
        {
            joined.push(part[j]);
            assert(part@.take(j as int + 1) == part@.take(j as int).push(part@[j as int]));
            j = j + 1;
        }
        assert(part@.take(part.len() as int) == part@);
        assert(values@.take(i as int + 1).drop_last() == values@.take(i as int));
        i = i + 1;
    }
    assert(values@.take(values.len() as int) == values@);
    joined
}

/// The body length that the values of a `content-length` header state.
pub fn content_length(values: &Vec<Vec<u8>>) -> (r: Option<u64>)
    ensures
        r == spec_content_length(values@),
{
    let joined = join_header_values(values);
    match string_from_utf8(joined) {
        Some(text) => parse_u64(text.as_str()),
        None => None,
    }
}

/// The fortune text of a body: the body read as UTF-8, or `None` where it
/// is not UTF-8.
pub fn fortune_text(body: Vec<u8>) -> (r: Option<String>)
    ensures
        r is Some <==> valid_utf8(body@),
        r matches Some(s) ==> s@ == decode_utf8(body@),
{
    string_from_utf8(body)
}

} // verus!
