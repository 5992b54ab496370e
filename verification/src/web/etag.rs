//! Cache validation: the validator of a converted image, and the test of a
//! conditional request against it.
//!
//! The validator is a digest of everything the response depends on: the
//! modification time and size of the source file, the output format, the
//! requested dimensions, and a marker of the transform algorithm's version.
//! On the wire it travels between double quotes, in the `ETag` header of a
//! response and in the `If-None-Match` header of a conditional request.

use crate::text::{
    chars_of, is_numeral_char, lemma_numeral_chars, lemma_numeral_injective, lemma_numeral_value,
    lower_hex_digits, push_lower_hex,
};
use std::collections::hash_map::DefaultHasher;
use std::hash::Hasher;
use vstd::bytes::{
    lemma_auto_spec_u32_to_from_le_bytes, lemma_auto_spec_u64_to_from_le_bytes,
    spec_u32_to_le_bytes, spec_u64_to_le_bytes, u32_to_le_bytes, u64_to_le_bytes,
};
use vstd::prelude::*;
use vstd::std_specs::hash::DefaultHasherAdditionalSpecFns;
use vstd::utf8::{encode_utf8, encode_utf8_decode_utf8};

verus! {

/// What the filesystem says of a source image, read anew for each request.
#[derive(Clone, Copy, Debug, PartialEq, Eq, Structural)]
pub struct SourceMetadata {
    /// The whole seconds of the modification time, counted from the Unix
    /// epoch; negative before it.
    pub modified_secs: i64,
    /// The nanoseconds of the modification time beyond the whole seconds.
    pub modified_nanos: u32,
    /// The size of the file in bytes.
    pub size: u64,
}

/// Everything a validator is computed from.
pub struct ValidatorInput {
    pub source: SourceMetadata,
    pub format_suffix: Seq<char>,
    pub width: Option<u32>,
    pub height: Option<u32>,
}

/// The marker of the transform algorithm's version. A change of the
/// algorithm or of its parameters changes the marker, and with it every
/// validator.
pub open spec fn algorithm_version() -> Seq<char> {
    "v1"@
}

/// The marker of the transform algorithm's version.
fn version_marker() -> (marker: &'static str)
    ensures
        marker@ == algorithm_version(),
{
    "v1"
}

/// The byte that ends a text in the digest's input. It occurs in no UTF-8
/// text, so no text runs into what follows it.
pub open spec fn text_end() -> Seq<u8> {
    seq![0xffu8]
}

/// The bytes that stand for an optional dimension: a zero byte for none,
/// else a one byte and the four bytes of the number, lowest first.
pub open spec fn dimension_bytes(dimension: Option<u32>) -> Seq<u8> {
    match dimension {
        Some(value) => seq![1u8] + spec_u32_to_le_bytes(value),
        None => seq![0u8],
    }
}

/// The pieces that are written to the hasher, in order.
pub open spec fn validator_writes(input: ValidatorInput) -> Seq<Seq<u8>> {
    seq![
        spec_u64_to_le_bytes(input.source.modified_secs as u64),
        spec_u32_to_le_bytes(input.source.modified_nanos),
        spec_u64_to_le_bytes(input.source.size),
        encode_utf8(input.format_suffix),
        text_end(),
        dimension_bytes(input.width),
        dimension_bytes(input.height),
        encode_utf8(algorithm_version()),
        text_end(),
    ]
}

/// The digest of a validator's input, as the standard library's default
/// hasher computes it.
pub open spec fn validator_digest(input: ValidatorInput) -> u64 {
    DefaultHasher::spec_finish(validator_writes(input))
}

/// The text of a validator: its digest in lower-case hexadecimal.
pub open spec fn validator_text(digest: u64) -> Seq<char> {
    lower_hex_digits(digest as nat)
}

/// The validator of an input.
pub open spec fn validator_of(input: ValidatorInput) -> Seq<char> {
    validator_text(validator_digest(input))
}

/// The value of the `ETag` header for a validator: the validator between
/// double quotes.
pub open spec fn quoted(validator: Seq<char>) -> Seq<char> {
    seq!['"'] + validator + seq!['"']
}

/// Writes an optional dimension to the hasher.
fn write_dimension(hasher: &mut DefaultHasher, dimension: Option<u32>)
    ensures
        final(hasher)@ == old(hasher)@.push(dimension_bytes(dimension)),
{
    let mut bytes: Vec<u8> = Vec::new();
    match dimension {
        Some(value) => {
            bytes.push(1);
            let mut number = u32_to_le_bytes(value);
            bytes.append(&mut number);
        },
        None => {
            bytes.push(0);
        },
    }
    assert(bytes@ =~= dimension_bytes(dimension));
    hasher.write(bytes.as_slice());
}

/// Writes a text to the hasher, and the byte that ends it.
fn write_text(hasher: &mut DefaultHasher, text: &str)
    ensures
        final(hasher)@ == old(hasher)@.push(encode_utf8(text@)).push(text_end()),
{
    hasher.write(text.as_bytes());
    let end: [u8; 1] = [0xff];
    assert(end@ =~= text_end());
    hasher.write(end.as_slice());
}

/// Computes the validator of a converted image.
///
/// The result depends on the arguments alone: the same source metadata,
/// format and dimensions always give the same validator.
pub fn compute_etag(
    source: SourceMetadata,
    format_suffix: &str,
    width: Option<u32>,
    height: Option<u32>,
) -> (validator: String)
    ensures
        validator@ == validator_of(
            ValidatorInput { source, format_suffix: format_suffix@, width, height },
        ),
{
    let ghost input = ValidatorInput { source, format_suffix: format_suffix@, width, height };
    let mut hasher = DefaultHasher::new();
    let secs: u64 = #[verifier::truncate]
    (source.modified_secs as u64);
    hasher.write(u64_to_le_bytes(secs).as_slice());
    hasher.write(u32_to_le_bytes(source.modified_nanos).as_slice());
    hasher.write(u64_to_le_bytes(source.size).as_slice());
    write_text(&mut hasher, format_suffix);
    write_dimension(&mut hasher, width);
    write_dimension(&mut hasher, height);
    write_text(&mut hasher, version_marker());
    assert(hasher@ =~= validator_writes(input));
    let digest = hasher.finish();
    let mut validator = String::new();
    push_lower_hex(&mut validator, digest);
    assert(validator@ =~= validator_of(input));
    validator
}

/// The value of the `ETag` header for a validator.
pub fn etag_header_value(validator: &str) -> (value: String)
    ensures
        value@ == quoted(validator@),
{
    proof {
        reveal_strlit("\"");
    }
    let value = String::from_str("\"").concat(validator).concat("\"");
    assert(value@ =~= quoted(validator@));
    value
}

/// Whether `c` is white space, as Unicode defines it.
pub open spec fn is_white_space(c: char) -> bool {
    ||| '\u{9}' <= c && c <= '\u{d}'
    ||| c == ' '
    ||| c == '\u{85}'
    ||| c == '\u{a0}'
    ||| c == '\u{1680}'
    ||| '\u{2000}' <= c && c <= '\u{200a}'
    ||| c == '\u{2028}'
    ||| c == '\u{2029}'
    ||| c == '\u{202f}'
    ||| c == '\u{205f}'
    ||| c == '\u{3000}'
}

/// Whether `c` is trimmed from the ends of a client's validator: white
/// space and the double quote.
pub open spec fn is_surrounding(c: char) -> bool {
    c == '"' || is_white_space(c)
}

/// `s` without the surrounding characters at its front.
pub open spec fn trim_front(s: Seq<char>) -> Seq<char>
    decreases s.len(),
{
    if s.len() > 0 && is_surrounding(s.first()) {
        trim_front(s.drop_first())
    } else {
        s
    }
}

/// `s` without the surrounding characters at its back.
pub open spec fn trim_back(s: Seq<char>) -> Seq<char>
    decreases s.len(),
{
    if s.len() > 0 && is_surrounding(s.last()) {
        trim_back(s.drop_last())
    } else {
        s
    }
}

/// `s` without the quotes and white space that surround it.
pub open spec fn trimmed(s: Seq<char>) -> Seq<char> {
    trim_back(trim_front(s))
}

/// Whether a conditional request is answered from the client's cache: the
/// client sent a validator, and trimmed it is the current one.
pub open spec fn fresh(client: Option<Seq<char>>, current: Seq<char>) -> bool {
    match client {
        Some(value) => trimmed(value) == current,
        None => false,
    }
}

/// Whether `c` is trimmed from the ends of a client's validator.
fn surrounds(c: char) -> (yes: bool)
    ensures
        yes == is_surrounding(c),
{
    c == '"' || ('\u{9}' <= c && c <= '\u{d}') || c == ' ' || c == '\u{85}' || c == '\u{a0}' || c
        == '\u{1680}' || ('\u{2000}' <= c && c <= '\u{200a}') || c == '\u{2028}' || c
        == '\u{2029}' || c == '\u{202f}' || c == '\u{205f}' || c == '\u{3000}'
}

/// Tests a conditional request against the current validator.
///
/// `client` is the value of the `If-None-Match` header, where the request
/// has one that is text.
pub fn is_fresh(client: Option<&str>, current: &str) -> (hit: bool)
    ensures
        hit == fresh(
            match client {
                Some(value) => Some(value@),
                None => None,
            },
            current@,
        ),
{
    let value = match client {
        Some(value) => chars_of(value),
        None => {
            return false;
        },
    };
    let wanted = chars_of(current);
    let n = value.len();
    let mut start: usize = 0;
    assert(value@.subrange(0, n as int) =~= value@);
    while start < n && surrounds(value[start])
        invariant
            n == value@.len(),
            start <= n,
            trim_front(value@) == trim_front(value@.subrange(start as int, n as int)),
        decreases n - start,
    {
        assert(value@.subrange(start as int, n as int).drop_first() =~= value@.subrange(
            start + 1,
            n as int,
        ));
        start += 1;
    }
    let ghost front = value@.subrange(start as int, n as int);
    assert(trim_front(value@) == front);
    let mut end: usize = n;
    while end > start && surrounds(value[end - 1])
        invariant
            n == value@.len(),
            start <= end <= n,
            front == value@.subrange(start as int, n as int),
            trim_back(front) == trim_back(value@.subrange(start as int, end as int)),
        decreases end - start,
    {
        assert(value@.subrange(start as int, end as int).drop_last() =~= value@.subrange(
            start as int,
            end - 1,
        ));
        end -= 1;
    }
    let ghost kept = value@.subrange(start as int, end as int);
    assert(trimmed(value@) == kept);
    if end - start != wanted.len() {
        return false;
    }
    let mut k: usize = 0;
    while k < wanted.len()
        invariant
            start <= end <= value@.len(),
            end - start == wanted@.len(),
            k <= wanted@.len(),
            kept == value@.subrange(start as int, end as int),
            client matches Some(text) && text@ == value@,
            wanted@ == current@,
            trimmed(value@) == kept,
            forall|j: int| 0 <= j < k ==> kept[j] == wanted@[j],
        decreases wanted@.len() - k,
    {
        if value[start + k] != wanted[k] {
            assert(kept[k as int] != wanted@[k as int]);
            return false;
        }
        k += 1;
    }
    assert(kept =~= wanted@);
    true
}

/// The bytes of an optional dimension tell whether there is one, and which.
proof fn lemma_dimension_bytes_injective(a: Option<u32>, b: Option<u32>)
    requires
        dimension_bytes(a) == dimension_bytes(b),
    ensures
        a == b,
{
    lemma_auto_spec_u32_to_from_le_bytes();
    match (a, b) {
        (Some(x), Some(y)) => {
            let p = spec_u32_to_le_bytes(x);
            let q = spec_u32_to_le_bytes(y);
            assert(p =~= dimension_bytes(a).subrange(1, 5));
            assert(q =~= dimension_bytes(b).subrange(1, 5));
            assert(x == y);
        },
        (Some(x), None) => {
            assert(dimension_bytes(a).len() == 5);
            assert(dimension_bytes(b).len() == 1);
        },
        (None, Some(y)) => {
            assert(dimension_bytes(a).len() == 1);
            assert(dimension_bytes(b).len() == 5);
        },
        (None, None) => {},
    }
}

/// Nothing is lost on the way to the hasher: two inputs that write the
/// same pieces are the same input.
pub proof fn lemma_validator_writes_injective(a: ValidatorInput, b: ValidatorInput)
    requires
        validator_writes(a) == validator_writes(b),
    ensures
        a == b,
{
    lemma_auto_spec_u32_to_from_le_bytes();
    lemma_auto_spec_u64_to_from_le_bytes();
    let wa = validator_writes(a);
    let wb = validator_writes(b);
    assert(wa[0] == wb[0]);
    assert(wa[1] == wb[1]);
    assert(wa[2] == wb[2]);
    assert(wa[3] == wb[3]);
    assert(wa[5] == wb[5]);
    assert(wa[6] == wb[6]);
    let x = a.source.modified_secs;
    let y = b.source.modified_secs;
    assert(wa[0] == spec_u64_to_le_bytes(x as u64));
    assert(wb[0] == spec_u64_to_le_bytes(y as u64));
    assert(x as u64 == y as u64);
    assert(x == y) by (bit_vector)
        requires
            x as u64 == y as u64,
    ;
    encode_utf8_decode_utf8(a.format_suffix);
    encode_utf8_decode_utf8(b.format_suffix);
    assert(a.format_suffix == b.format_suffix);
    lemma_dimension_bytes_injective(a.width, b.width);
    lemma_dimension_bytes_injective(a.height, b.height);
    assert(wa[1] == spec_u32_to_le_bytes(a.source.modified_nanos));
    assert(wb[1] == spec_u32_to_le_bytes(b.source.modified_nanos));
    assert(wa[1].len() == 4 && wb[1].len() == 4);
    assert(a.source.modified_nanos == b.source.modified_nanos);
    assert(wa[2] == spec_u64_to_le_bytes(a.source.size));
    assert(wb[2] == spec_u64_to_le_bytes(b.source.size));
    assert(a.source.size == b.source.size);
    assert(a.source == b.source);
}

/// Two digests with the same text are the same digest.
pub proof fn lemma_validator_text_injective(a: u64, b: u64)
    requires
        validator_text(a) == validator_text(b),
    ensures
        a == b,
{
    lemma_numeral_injective(a as nat, b as nat, 16);
}

/// A change of the source's modification time or size, of the format or of
/// a requested dimension changes what is hashed, and the validator changes
/// with it unless the two digests collide.
pub proof fn lemma_validator_changes(a: ValidatorInput, b: ValidatorInput)
    requires
        a != b,
    ensures
        validator_writes(a) != validator_writes(b),
        validator_of(a) == validator_of(b) <==> validator_digest(a) == validator_digest(b),
{
    if validator_writes(a) == validator_writes(b) {
        lemma_validator_writes_injective(a, b);
    }
    if validator_of(a) == validator_of(b) {
        lemma_validator_text_injective(validator_digest(a), validator_digest(b));
    }
}

/// A validator is made of the characters `0` to `9` and `a` to `f`, and of
/// at least one of them: between its quotes it is a valid header value.
pub proof fn lemma_validator_text_chars(digest: u64)
    ensures
        validator_text(digest).len() >= 1,
        forall|i: int|
            0 <= i < validator_text(digest).len() ==> is_numeral_char(
                #[trigger] validator_text(digest)[i],
            ),
{
    lemma_numeral_value(digest as nat, 16);
    lemma_numeral_chars(digest as nat, 16);
}

/// A client that sends back the `ETag` header of a response, quotes
/// included, is answered from its cache for as long as the validator stays
/// the same.
pub proof fn lemma_own_etag_is_fresh(digest: u64)
    ensures
        fresh(Some(quoted(validator_text(digest))), validator_text(digest)),
{
    let v = validator_text(digest);
    lemma_validator_text_chars(digest);
    let q = quoted(v);
    assert(q.first() == '"');
    assert(q.drop_first() =~= v + seq!['"']);
    let rest = v + seq!['"'];
    assert(rest.first() == v[0]);
    assert(is_numeral_char(v[0]));
    assert(trim_front(rest) == rest);
    assert(trim_front(q) == rest);
    assert(rest.last() == '"');
    assert(rest.drop_last() =~= v);
    assert(v.last() == v[v.len() - 1]);
    assert(is_numeral_char(v[v.len() - 1]));
    assert(trim_back(v) == v);
    assert(trim_back(rest) == v);
}

} // verus!
