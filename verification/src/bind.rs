//! The binder: which codec a request is decoded with, what is handed to that
//! codec, and how the codec's answer becomes the result of the binding.
//!
//! The binder itself neither buffers a body nor runs a codec. It is driven in
//! three moves: [`plan`] reads the content type and names the [`Source`] of
//! the payload; [`query_payload`] or [`body_payload`] turns the query
//! component, or the outcome of buffering the body, into the [`Payload`] to
//! decode; and [`conclude`] classifies what the codec made of it.

use crate::error::{BindError, BindResult};
use crate::media::{mime_parse, text_eq, MediaNames, MediaType};
use axum::extract::rejection::BytesRejection;
use vstd::prelude::*;
use vstd::utf8::*;

verus! {

/// A wire format that the binder can decode.
#[derive(Debug, Clone, Copy, PartialEq, Eq, Structural)]
pub enum Codec {
    /// JSON, named by `application/json` and `application/*+json`.
    Json,
    /// URL-encoded form data, named by `application/x-www-form-urlencoded`.
    UrlEncoded,
    /// XML, named by `application/xml` and `application/*+xml`.
    Xml,
}

impl Codec {
    /// The subtype, or suffix, by which a media type names this codec.
    pub open spec fn label(self) -> Seq<char> {
        match self {
            Codec::Json => "json"@,
            Codec::UrlEncoded => "x-www-form-urlencoded"@,
            Codec::Xml => "xml"@,
        }
    }

    /// The subtype, or suffix, by which a media type names this codec.
    pub fn name(self) -> (text: &'static str)
        ensures
            text@ == self.label(),
    {
        match self {
            Codec::Json => "json",
            Codec::UrlEncoded => "x-www-form-urlencoded",
            Codec::Xml => "xml",
        }
    }
}

/// The codecs that are switched on. Any subset may be; with none, every
/// request is refused.
#[derive(Debug, Clone, Copy, PartialEq, Eq, Structural)]
pub struct Codecs {
    /// Whether JSON bodies are decoded.
    pub json: bool,
    /// Whether URL-encoded bodies and query strings are decoded.
    pub urlencoded: bool,
    /// Whether XML bodies are decoded.
    pub xml: bool,
}

impl Default for Codecs {
    /// Every codec switched on.
    fn default() -> (codecs: Codecs)
        ensures
            codecs == (Codecs { json: true, urlencoded: true, xml: true }),
    {
        Codecs { json: true, urlencoded: true, xml: true }
    }
}

impl Codecs {
    /// Whether `codec` is switched on.
    pub open spec fn enabled(self, codec: Codec) -> bool {
        match codec {
            Codec::Json => self.json,
            Codec::UrlEncoded => self.urlencoded,
            Codec::Xml => self.xml,
        }
    }

    /// Every codec switched on.
    pub fn all() -> (codecs: Codecs)
        ensures
            codecs == (Codecs { json: true, urlencoded: true, xml: true }),
    {
        Codecs { json: true, urlencoded: true, xml: true }
    }

    /// Every codec switched off.
    pub fn none() -> (codecs: Codecs)
        ensures
            codecs == (Codecs { json: false, urlencoded: false, xml: false }),
    {
        Codecs { json: false, urlencoded: false, xml: false }
    }

    /// Whether `codec` is switched on.
    pub fn has(&self, codec: Codec) -> (on: bool)
        ensures
            on == self.enabled(codec),
    {
        match codec {
            Codec::Json => self.json,
            Codec::UrlEncoded => self.urlencoded,
            Codec::Xml => self.xml,
        }
    }
}

/// Where the payload of a request is taken from.
#[derive(Debug, Clone, Copy, PartialEq, Eq, Structural)]
pub enum Source {
    /// The query component of the URI, as URL-encoded form data. The body is
    /// left unread.
    Query,
    /// The body, once buffered, in the given format.
    Body(Codec),
}

/// A media type names a codec when its top-level type is `application` and
/// its subtype or its suffix is the codec's label.
pub open spec fn names(media: MediaNames, codec: Codec) -> bool {
    &&& media.type_ == "application"@
    &&& (media.subtype == codec.label() || media.suffix == Some(codec.label()))
}

/// The codec that a media type selects: the first of JSON, URL-encoded and
/// XML that is switched on and that the media type names.
pub open spec fn selected(codecs: Codecs, media: MediaNames) -> Option<Codec> {
    if codecs.enabled(Codec::Json) && names(media, Codec::Json) {
        Some(Codec::Json)
    } else if codecs.enabled(Codec::UrlEncoded) && names(media, Codec::UrlEncoded) {
        Some(Codec::UrlEncoded)
    } else if codecs.enabled(Codec::Xml) && names(media, Codec::Xml) {
        Some(Codec::Xml)
    } else {
        None
    }
}

/// The source that a parsed content type leads to. A content type that did
/// not parse, or that selects no codec, is an invalid mime type.
pub open spec fn dispatched(codecs: Codecs, parsed: Option<MediaNames>) -> Result<Source, BindError> {
    match parsed {
        Some(media) => match selected(codecs, media) {
            Some(codec) => Ok(Source::Body(codec)),
            None => Err(BindError::InvalidMimeType),
        },
        None => Err(BindError::InvalidMimeType),
    }
}

/// The source that a request with content type `text` is bound from, where
/// `parsed` is what the media-type parser makes of `text`. An absent header
/// counts as the empty text. The empty text sends the binder to the query
/// component where the URL-encoded codec is on, and is an invalid mime type
/// where it is off; any other text is dispatched on the parsed media type.
pub open spec fn planned(codecs: Codecs, text: Seq<char>, parsed: Option<MediaNames>) -> Result<
    Source,
    BindError,
> {
    if text.len() == 0 {
        if codecs.urlencoded {
            Ok(Source::Query)
        } else {
            Err(BindError::InvalidMimeType)
        }
    } else {
        dispatched(codecs, parsed)
    }
}

/// The text of an optional header or URI component: empty where it is absent.
pub open spec fn text_of(part: Option<&str>) -> Seq<char> {
    match part {
        Some(s) => s@,
        None => Seq::empty(),
    }
}

impl MediaType {
    /// Whether this media type names `codec`.
    pub fn names(&self, codec: Codec) -> (named: bool)
        ensures
            named == names(self@, codec),
    {
        if !text_eq(self.type_.as_str(), "application") {
            return false;
        }
        let label = codec.name();
        if text_eq(self.subtype.as_str(), label) {
            return true;
        }
        match &self.suffix {
            Some(suffix) => text_eq(suffix.as_str(), label),
            None => false,
        }
    }
}

/// Selects the codec for a media type: the first of JSON, URL-encoded and XML
/// that is switched on and that the media type names, if there is one.
pub fn select(codecs: &Codecs, media: &MediaType) -> (codec: Option<Codec>)
    ensures
        codec == selected(*codecs, media@),
{
    if codecs.has(Codec::Json) && media.names(Codec::Json) {
        Some(Codec::Json)
    } else if codecs.has(Codec::UrlEncoded) && media.names(Codec::UrlEncoded) {
        Some(Codec::UrlEncoded)
    } else if codecs.has(Codec::Xml) && media.names(Codec::Xml) {
        Some(Codec::Xml)
    } else {
        None
    }
}

/// Dispatches on a parsed content type, `None` standing for a header that did
/// not parse: the body in the selected codec's format, or `InvalidMimeType`
/// where nothing is selected.
pub fn dispatch(codecs: &Codecs, parsed: Option<&MediaType>) -> (source: Result<Source, BindError>)
    ensures
        source == dispatched(
            *codecs,
            match parsed {
                Some(media) => Some(media@),
                None => None,
            },
        ),
{
    match parsed {
        Some(media) => match select(codecs, media) {
            Some(codec) => Ok(Source::Body(codec)),
            None => Err(BindError::InvalidMimeType),
        },
        None => Err(BindError::InvalidMimeType),
    }
}

/// Decides from the content-type header alone where the payload of a request
/// comes from. An absent header counts as an empty one. With the URL-encoded
/// codec on, an empty header selects the query component and the body is left
/// unread. Otherwise the header is parsed as a media type and dispatched on;
/// an empty header does not parse.
pub fn plan(codecs: &Codecs, content_type: Option<&str>) -> (source: Result<Source, BindError>)
    ensures
        source == planned(*codecs, text_of(content_type), mime_parse(text_of(content_type))),
{
    let text = match content_type {
        Some(text) => text,
        None => {
            proof {
                reveal_strlit("");
                assert(""@ =~= Seq::<char>::empty());
            }
            ""
        },
    };
    if codecs.urlencoded && text.is_empty() {
        return Ok(Source::Query);
    }
    let parsed = MediaType::parse(text);
    dispatch(codecs, parsed.as_ref())
}

/// What is handed to a codec.
#[derive(Debug, PartialEq, Eq)]
pub enum Payload {
    /// Bytes for the JSON codec: the body as it was buffered.
    Json(Vec<u8>),
    /// Text for the URL-encoded codec: the query component, or the body read
    /// as UTF-8.
    Form(String),
    /// Bytes for the XML codec: the body as it was buffered.
    Xml(Vec<u8>),
}

/// The mathematical value of a [`Payload`].
pub ghost enum PayloadData {
    Json(Seq<u8>),
    Form(Seq<char>),
    Xml(Seq<u8>),
}

impl View for Payload {
    type V = PayloadData;

    open spec fn view(&self) -> PayloadData {
        match self {
            Payload::Json(bytes) => PayloadData::Json(bytes@),
            Payload::Form(text) => PayloadData::Form(text@),
            Payload::Xml(bytes) => PayloadData::Xml(bytes@),
        }
    }
}

/// The form text that a buffered body stands for: the body decoded as UTF-8,
/// and the empty text where the body is not valid UTF-8.
pub open spec fn form_text(body: Seq<u8>) -> Seq<char> {
    if valid_utf8(body) {
        decode_utf8(body)
    } else {
        Seq::empty()
    }
}

/// The payload that a buffered body makes for a codec. JSON and XML take the
/// bytes as they are; URL-encoded data is decoded from the body's form text.
pub open spec fn framed(codec: Codec, body: Seq<u8>) -> PayloadData {
    match codec {
        Codec::Json => PayloadData::Json(body),
        Codec::UrlEncoded => PayloadData::Form(form_text(body)),
        Codec::Xml => PayloadData::Xml(body),
    }
}

/// Reads bytes as UTF-8 text with `std::str::from_utf8`.
///
/// Trusted: the call succeeds exactly on valid UTF-8, and the text it gives
/// is made of the very bytes it was given.
#[verifier::external_body]
fn utf8_text(bytes: &[u8]) -> (text: Option<&str>)
    ensures
        text is Some <==> valid_utf8(bytes@),
        text matches Some(s) ==> encode_utf8(s@) == bytes@,
{
    match std::str::from_utf8(bytes) {
        Ok(s) => Some(s),
        Err(_) => None,
    }
}

/// The payload of a request that is bound from its query component: the
/// query as form text, empty where the URI has no query.
pub fn query_payload(query: Option<&str>) -> (payload: Payload)
    ensures
        payload@ == PayloadData::Form(text_of(query)),
{
    match query {
        Some(text) => Payload::Form(text.to_owned()),
        None => Payload::Form(String::new()),
    }
}

/// The payload of a request that is bound from its body, given what came of
/// buffering the body. A body that could not be buffered is a
/// `BodyReadError`, whichever codec asked for it.
pub fn body_payload(codec: Codec, body: Result<Vec<u8>, BytesRejection>) -> (payload: Result<
    Payload,
    BindError,
>)
    ensures
        match body {
            Ok(bytes) => payload matches Ok(p) && p@ == framed(codec, bytes@),
            Err(cause) => payload == Err::<Payload, BindError>(BindError::BodyReadError(cause)),
        },
{
    match body {
        Ok(bytes) => match codec {
            Codec::Json => Ok(Payload::Json(bytes)),
            Codec::UrlEncoded => {
                let text = match utf8_text(bytes.as_slice()) {
                    Some(s) => {
                        proof {
                            encode_utf8_decode_utf8(s@);
                        }
                        s.to_owned()
                    },
                    None => String::new(),
                };
                Ok(Payload::Form(text))
            },
            Codec::Xml => Ok(Payload::Xml(bytes)),
        },
        Err(cause) => Err(BindError::BodyReadError(cause)),
    }
}

/// What a codec made of a payload.
pub enum Decoded<T> {
    /// The answer of the JSON codec.
    Json(Result<T, serde_json::Error>),
    /// The answer of the URL-encoded codec.
    UrlEncoded(Result<T, serde_urlencoded::de::Error>),
    /// The answer of the XML codec.
    Xml(Result<T, serde_xml_rs::Error>),
}

/// The result of a binding whose payload was decoded: the decoded value as
/// it is, or the codec's error under the kind that belongs to the codec.
pub open spec fn concluded<T>(decoded: Decoded<T>) -> BindResult<T> {
    match decoded {
        Decoded::Json(Ok(value)) => Ok(value),
        Decoded::Json(Err(cause)) => Err(BindError::JsonError(cause)),
        Decoded::UrlEncoded(Ok(value)) => Ok(value),
        Decoded::UrlEncoded(Err(cause)) => Err(BindError::UrlEncodedError(cause)),
        Decoded::Xml(Ok(value)) => Ok(value),
        Decoded::Xml(Err(cause)) => Err(BindError::XmlError(cause)),
    }
}

/// Concludes a binding from what the codec made of the payload.
pub fn conclude<T>(decoded: Decoded<T>) -> (bound: BindResult<T>)
    ensures
        bound == concluded(decoded),
{
    match decoded {
        Decoded::Json(Ok(value)) => Ok(value),
        Decoded::Json(Err(cause)) => Err(BindError::JsonError(cause)),
        Decoded::UrlEncoded(Ok(value)) => Ok(value),
        Decoded::UrlEncoded(Err(cause)) => Err(BindError::UrlEncodedError(cause)),
        Decoded::Xml(Ok(value)) => Ok(value),
        Decoded::Xml(Err(cause)) => Err(BindError::XmlError(cause)),
    }
}

} // verus!
