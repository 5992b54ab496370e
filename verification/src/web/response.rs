//! Response assembly: the answers to an image request that succeeded.

use crate::text::is_numeral_char;
use crate::web::etag::{etag_header_value, lemma_validator_text_chars, quoted, validator_text};
use crate::web::negotiation::OutputFormat;
use axum::http::HeaderValue;
use vstd::prelude::*;
use vstd::utf8::{encode_utf8, is_ascii_chars, is_ascii_chars_encode_utf8};

verus! {

/// The status code of an answer with the converted image.
pub const STATUS_OK: u16 = 200;

/// The status code of an answer from the client's cache.
pub const STATUS_NOT_MODIFIED: u16 = 304;

/// An answer to an image request: the status code, the headers in order,
/// and the body.
#[derive(Debug, Clone, PartialEq, Eq)]
pub struct ImageResponse {
    pub status: u16,
    pub headers: Vec<(String, String)>,
    pub body: Vec<u8>,
}

/// The mathematical value of an [`ImageResponse`].
pub struct ImageResponseView {
    pub status: u16,
    pub headers: Seq<(Seq<char>, Seq<char>)>,
    pub body: Seq<u8>,
}

/// The texts of a list of headers.
pub open spec fn header_texts(headers: Seq<(String, String)>) -> Seq<(Seq<char>, Seq<char>)> {
    Seq::new(headers.len(), |i: int| (headers[i].0@, headers[i].1@))
}

impl View for ImageResponse {
    type V = ImageResponseView;

    open spec fn view(&self) -> ImageResponseView {
        ImageResponseView {
            status: self.status,
            headers: header_texts(self.headers@),
            body: self.body@,
        }
    }
}

/// The cache directive of a converted image: any cache may keep it for a
/// year, and it never changes under its validator.
pub open spec fn cache_directive() -> Seq<char> {
    "public, max-age=31536000, immutable"@
}

/// Whether a byte may stand in the value of a header: any byte but the
/// control characters, of which only the tab is let in.
pub open spec fn is_header_byte(b: u8) -> bool {
    (b >= 32 && b != 127) || b == 9
}

/// Whether a text makes the value of a header: every byte of its UTF-8
/// form may stand in one.
pub open spec fn is_header_value(text: Seq<char>) -> bool {
    forall|i: int|
        0 <= i < encode_utf8(text).len() ==> is_header_byte(#[trigger] encode_utf8(text)[i])
}

/// The `ETag` header of a validator: the validator between double quotes,
/// where that makes the value of a header, else no header at all.
pub open spec fn etag_headers(validator: Seq<char>) -> Seq<(Seq<char>, Seq<char>)> {
    if is_header_value(quoted(validator)) {
        seq![("etag"@, quoted(validator))]
    } else {
        Seq::empty()
    }
}

/// The answer to a conditional request that is fresh: the validator alone,
/// and no body.
pub open spec fn not_modified(validator: Seq<char>) -> ImageResponseView {
    ImageResponseView {
        status: STATUS_NOT_MODIFIED,
        headers: etag_headers(validator),
        body: Seq::empty(),
    }
}

/// The answer with a converted image: its MIME type, the cache directive,
/// the note that the answer varies with `Accept`, the validator, and the
/// encoded image as the body.
pub open spec fn converted(
    format: OutputFormat,
    validator: Seq<char>,
    body: Seq<u8>,
) -> ImageResponseView {
    ImageResponseView {
        status: STATUS_OK,
        headers: seq![
            ("content-type"@, format.mime_text()),
            ("cache-control"@, cache_directive()),
            ("vary"@, "Accept"@),
        ] + etag_headers(validator),
        body,
    }
}

/// One header.
fn header(name: &str, value: String) -> (pair: (String, String))
    ensures
        pair.0@ == name@,
        pair.1@ == value@,
{
    (String::from_str(name), value)
}

/// Calls `http::HeaderValue::from_str` and tells whether it took the text.
/// Not proved: that it takes a text exactly when no byte of it is a control
/// character other than the tab.
#[verifier::external_body]
fn accepts_header_value(text: &str) -> (accepted: bool)
    ensures
        accepted == is_header_value(text@),
{
    HeaderValue::from_str(text).is_ok()
}

/// Adds the `ETag` header of a validator, where there is one.
fn push_etag(headers: &mut Vec<(String, String)>, validator: &str)
    ensures
        header_texts(final(headers)@) == header_texts(old(headers)@) + etag_headers(validator@),
{
    let value = etag_header_value(validator);
    if accepts_header_value(value.as_str()) {
        headers.push(header("etag", value));
    }
    assert(header_texts(final(headers)@) =~= header_texts(old(headers)@) + etag_headers(
        validator@,
    ));
}

/// Assembles the answer to a conditional request that is fresh.
pub fn not_modified_response(validator: &str) -> (response: ImageResponse)
    ensures
        response@ == not_modified(validator@),
{
    let mut headers: Vec<(String, String)> = Vec::new();
    push_etag(&mut headers, validator);
    let response = ImageResponse { status: STATUS_NOT_MODIFIED, headers, body: Vec::new() };
    assert(response@.headers =~= not_modified(validator@).headers);
    assert(response@.body =~= not_modified(validator@).body);
    response
}

/// Assembles the answer with a converted image.
pub fn image_response(format: OutputFormat, validator: &str, body: Vec<u8>) -> (response:
    ImageResponse)
    ensures
        response@ == converted(format, validator@, body@),
{
    let mut headers: Vec<(String, String)> = Vec::new();
    headers.push(header("content-type", String::from_str(format.mime())));
    headers.push(header("cache-control", String::from_str("public, max-age=31536000, immutable")));
    headers.push(header("vary", String::from_str("Accept")));
    push_etag(&mut headers, validator);
    let response = ImageResponse { status: STATUS_OK, headers, body };
    assert(response@.headers =~= converted(format, validator@, body@).headers);
    response
}

/// A validator between its quotes always makes the value of a header, so
/// every answer carries its `ETag`.
pub proof fn lemma_validator_makes_a_header(digest: u64)
    ensures
        is_header_value(quoted(validator_text(digest))),
        etag_headers(validator_text(digest)) == seq![
            ("etag"@, quoted(validator_text(digest))),
        ],
{
    let validator = validator_text(digest);
    let value = quoted(validator);
    lemma_validator_text_chars(digest);
    assert forall|i: int| 0 <= i < value.len() implies (#[trigger] value[i] == '"'
        || is_numeral_char(value[i])) by {
        if 0 < i < value.len() - 1 {
            assert(value[i] == validator[i - 1]);
        }
    }
    assert(is_ascii_chars(value));
    is_ascii_chars_encode_utf8(value);
    assert forall|i: int| 0 <= i < encode_utf8(value).len() implies is_header_byte(
        #[trigger] encode_utf8(value)[i],
    ) by {
        assert(value[i] as u8 == encode_utf8(value)[i]);
        assert(value[i] == '"' || is_numeral_char(value[i]));
    }
}

} // verus!
