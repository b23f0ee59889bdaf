//! Media types as the dispatcher reads them: the top-level type, the subtype
//! and the structured-syntax suffix of a content-type header.

use vstd::prelude::*;
use vstd::utf8::*;

verus! {

/// The three names of a parsed media type, e.g. `image`, `svg` and `xml`
/// for `image/svg+xml`. Parameters are not kept: dispatch never reads them.
#[derive(Debug, PartialEq, Eq)]
pub struct MediaType {
    /// Top-level type, the part before the slash.
    pub type_: String,
    /// Subtype, the part after the slash and before any `+` suffix.
    pub subtype: String,
    /// Structured-syntax suffix, the part after the last `+`, if there is one.
    pub suffix: Option<String>,
}

/// The mathematical value of a [`MediaType`].
pub ghost struct MediaNames {
    pub type_: Seq<char>,
    pub subtype: Seq<char>,
    pub suffix: Option<Seq<char>>,
}

impl View for MediaType {
    type V = MediaNames;

    open spec fn view(&self) -> MediaNames {
        MediaNames {
            type_: self.type_@,
            subtype: self.subtype@,
            suffix: match self.suffix {
                Some(s) => Some(s@),
                None => None,
            },
        }
    }
}

/// What `mime`'s parser makes of a content-type header: `None` where it
/// rejects the text, else the names of the media type it read.
pub uninterp spec fn mime_parse(text: Seq<char>) -> Option<MediaNames>;

/// The view of an optional media type.
pub open spec fn names_of(media: Option<MediaType>) -> Option<MediaNames> {
    match media {
        Some(m) => Some(m@),
        None => None,
    }
}

impl MediaType {
    /// Reads a content-type header as a media type. `None` where the text is
    /// no media type; the empty text is none.
    pub fn parse(text: &str) -> (media: Option<MediaType>)
        ensures
            names_of(media) == mime_parse(text@),
            text@.len() == 0 ==> media is None,
    {
        parse_mime(text)
    }
}

/// Parses a content-type header with `<mime::Mime as FromStr>::from_str` and
/// copies out `type_()`, `subtype()` and `suffix()` of the result.
///
/// Trusted: the names returned are those that `mime` reads from `text`, and
/// `None` comes back exactly where `mime` reports a parse error; the parser
/// is a function of the text alone. It reports an error for the empty text,
/// in which it finds no slash.
#[verifier::external_body]
fn parse_mime(text: &str) -> (media: Option<MediaType>)
    ensures
        names_of(media) == mime_parse(text@),
        text@.len() == 0 ==> media is None,
{
    match text.parse::<mime::Mime>() {
        Ok(m) => Some(MediaType {
            type_: m.type_().as_str().to_owned(),
            subtype: m.subtype().as_str().to_owned(),
            suffix: match m.suffix() {
                Some(name) => Some(name.as_str().to_owned()),
                None => None,
            },
        }),
        Err(_) => None,
    }
}

/// Whether two strings hold the same characters.
pub fn text_eq(a: &str, b: &str) -> (same: bool)
    ensures
        same == (a@ == b@),
{
    let x = a.as_bytes();
    let y = b.as_bytes();
    if x.len() != y.len() {
        return false;
    }
    let mut i: usize = 0;
    while i < x.len()
        invariant
            i <= x.len(),
            x.len() == y.len(),
            x@ == encode_utf8(a@),
            y@ == encode_utf8(b@),
            forall|j: int| 0 <= j < i ==> x@[j] == y@[j],
        decreases x.len() - i,
    {
        if x[i] != y[i] {
            return false;
        }
        i += 1;
    }
    proof {
        assert(x@ =~= y@);
        encode_utf8_decode_utf8(a@);
        encode_utf8_decode_utf8(b@);
    }
    true
}

} // verus!
