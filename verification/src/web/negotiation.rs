//! Format negotiation: the output format that a client's `Accept` header
//! leads to.
//!
//! The known formats are tried in a fixed order of preference. A format is
//! accepted when its MIME type occurs anywhere in the header value: a plain
//! search for the text, with no parsing of media ranges or quality values.

use crate::text::chars_of;
use vstd::prelude::*;

verus! {

/// An output format the service can encode.
#[derive(Clone, Copy, Debug, PartialEq, Eq, Structural)]
pub enum OutputFormat {
    Avif,
    Webp,
    Png,
    Jpg,
}

impl OutputFormat {
    /// The suffix of the format, with its dot.
    pub open spec fn suffix_text(self) -> Seq<char> {
        match self {
            OutputFormat::Avif => ".avif"@,
            OutputFormat::Webp => ".webp"@,
            OutputFormat::Png => ".png"@,
            OutputFormat::Jpg => ".jpg"@,
        }
    }

    /// The MIME type of the format.
    pub open spec fn mime_text(self) -> Seq<char> {
        match self {
            OutputFormat::Avif => "image/avif"@,
            OutputFormat::Webp => "image/webp"@,
            OutputFormat::Png => "image/png"@,
            OutputFormat::Jpg => "image/jpeg"@,
        }
    }

    /// The suffix of the format, with its dot.
    pub fn suffix(self) -> (suffix: &'static str)
        ensures
            suffix@ == self.suffix_text(),
    {
        match self {
            OutputFormat::Avif => ".avif",
            OutputFormat::Webp => ".webp",
            OutputFormat::Png => ".png",
            OutputFormat::Jpg => ".jpg",
        }
    }

    /// The MIME type of the format.
    pub fn mime(self) -> (mime: &'static str)
        ensures
            mime@ == self.mime_text(),
    {
        match self {
            OutputFormat::Avif => "image/avif",
            OutputFormat::Webp => "image/webp",
            OutputFormat::Png => "image/png",
            OutputFormat::Jpg => "image/jpeg",
        }
    }
}

/// The format served when the client accepts none of the known ones, or
/// says nothing.
pub open spec fn default_format() -> OutputFormat {
    OutputFormat::Jpg
}

/// The known formats, most preferred first.
pub open spec fn preference() -> Seq<OutputFormat> {
    seq![OutputFormat::Avif, OutputFormat::Webp, OutputFormat::Png, OutputFormat::Jpg]
}

/// Whether `needle` stands in `hay` at position `at`.
pub open spec fn occurs_at(needle: Seq<char>, hay: Seq<char>, at: int) -> bool {
    &&& 0 <= at
    &&& at + needle.len() <= hay.len()
    &&& hay.subrange(at, at + needle.len()) == needle
}

/// Whether `needle` stands somewhere in `hay`.
pub open spec fn occurs_in(needle: Seq<char>, hay: Seq<char>) -> bool {
    exists|at: int| occurs_at(needle, hay, at)
}

/// The first format, from position `from` of the order of preference on,
/// whose MIME type occurs in `accept`; the default where none does.
pub open spec fn first_accepted(accept: Seq<char>, from: int) -> OutputFormat
    decreases preference().len() - from,
{
    if from < 0 || from >= preference().len() {
        default_format()
    } else if occurs_in(preference()[from].mime_text(), accept) {
        preference()[from]
    } else {
        first_accepted(accept, from + 1)
    }
}

/// The format negotiated for an `Accept` header value, or for its absence.
pub open spec fn negotiated(accept: Option<Seq<char>>) -> OutputFormat {
    match accept {
        Some(value) => first_accepted(value, 0),
        None => default_format(),
    }
}

/// Whether `needle` stands in `hay` at position `at`.
fn stands_at(needle: &Vec<char>, hay: &Vec<char>, at: usize) -> (found: bool)
    requires
        at + needle@.len() <= hay@.len(),
    ensures
        found == occurs_at(needle@, hay@, at as int),
{
    let mut k: usize = 0;
    while k < needle.len()
        invariant
            k <= needle@.len(),
            at + needle@.len() <= hay@.len(),
            hay.len() == hay@.len(),
            forall|j: int| 0 <= j < k ==> hay@[at + j] == needle@[j],
        decreases needle@.len() - k,
    {
        if hay[at + k] != needle[k] {
            assert(hay@.subrange(at as int, at + needle@.len())[k as int] != needle@[k as int]);
            return false;
        }
        k += 1;
    }
    assert(hay@.subrange(at as int, at + needle@.len()) =~= needle@);
    true
}

/// Whether `needle` stands somewhere in `hay`.
pub fn contains_text(hay: &Vec<char>, needle: &Vec<char>) -> (found: bool)
    ensures
        found == occurs_in(needle@, hay@),
{
    if needle.len() > hay.len() {
        return false;
    }
    let last: usize = hay.len() - needle.len();
    let mut at: usize = 0;
    loop
        invariant
            last == hay@.len() - needle@.len(),
            at <= last,
            forall|j: int| 0 <= j < at ==> !occurs_at(needle@, hay@, j),
        decreases last - at,
    {
        if stands_at(needle, hay, at) {
            return true;
        }
        if at == last {
            return false;
        }
        at += 1;
    }
}

/// Negotiates the output format from the value of the `Accept` header,
/// where the request has one that is text.
pub fn negotiate_format(accept: Option<&str>) -> (format: OutputFormat)
    ensures
        format == negotiated(
            match accept {
                Some(value) => Some(value@),
                None => None,
            },
        ),
{
    let value = match accept {
        Some(value) => chars_of(value),
        None => {
            return OutputFormat::Jpg;
        },
    };
    let order = [OutputFormat::Avif, OutputFormat::Webp, OutputFormat::Png, OutputFormat::Jpg];
    assert(order@ =~= preference());
    let mut k: usize = 0;
    while k < 4
        invariant
            k <= 4,
            order@ == preference(),
            accept matches Some(text) && text@ == value@,
            first_accepted(value@, 0) == first_accepted(value@, k as int),
        decreases 4 - k,
    {
        let candidate = order[k];
        let mime = chars_of(candidate.mime());
        if contains_text(&value, &mime) {
            return candidate;
        }
        k += 1;
    }
    OutputFormat::Jpg
}

/// The negotiated format is the most preferred one whose MIME type occurs
/// in the header value: AVIF before WebP, WebP before PNG, and JPEG where
/// none of these three occurs.
pub proof fn lemma_negotiated_is_most_preferred(accept: Seq<char>)
    ensures
        occurs_in(OutputFormat::Avif.mime_text(), accept) ==> negotiated(Some(accept))
            == OutputFormat::Avif,
        !occurs_in(OutputFormat::Avif.mime_text(), accept) && occurs_in(
            OutputFormat::Webp.mime_text(),
            accept,
        ) ==> negotiated(Some(accept)) == OutputFormat::Webp,
        !occurs_in(OutputFormat::Avif.mime_text(), accept) && !occurs_in(
            OutputFormat::Webp.mime_text(),
            accept,
        ) && occurs_in(OutputFormat::Png.mime_text(), accept) ==> negotiated(Some(accept))
            == OutputFormat::Png,
        !occurs_in(OutputFormat::Avif.mime_text(), accept) && !occurs_in(
            OutputFormat::Webp.mime_text(),
            accept,
        ) && !occurs_in(OutputFormat::Png.mime_text(), accept) ==> negotiated(Some(accept))
            == OutputFormat::Jpg,
{
    reveal_with_fuel(first_accepted, 5);
}

/// A header value in which none of the known MIME types occurs, and a
/// request without the header, are served JPEG, with the content type
/// `image/jpeg`.
pub proof fn lemma_unknown_accept_gives_jpeg(accept: Option<Seq<char>>)
    requires
        accept matches Some(value) ==> forall|k: int|
            0 <= k < preference().len() ==> !occurs_in(
                (#[trigger] preference()[k]).mime_text(),
                value,
            ),
    ensures
        negotiated(accept) == OutputFormat::Jpg,
        negotiated(accept).mime_text() == "image/jpeg"@,
        negotiated(accept).suffix_text() == ".jpg"@,
{
    reveal_with_fuel(first_accepted, 5);
    if let Some(value) = accept {
        assert(!occurs_in(preference()[0].mime_text(), value));
        assert(!occurs_in(preference()[1].mime_text(), value));
        assert(!occurs_in(preference()[2].mime_text(), value));
    }
}

} // verus!
