//! What holds of the binder on every request, stated over the functions that
//! its contracts are written in.

use crate::bind::{
    concluded, dispatched, framed, names, planned, selected, Codec, Codecs, Decoded, PayloadData,
    Source,
};
use crate::error::BindError;
use crate::media::MediaNames;
use vstd::prelude::*;

verus! {

/// A request whose content type names JSON is, with the JSON codec on, bound
/// from its body by that codec: the codec is handed the body byte for byte,
/// and where it decodes the body, the binding succeeds with the very value
/// that it decoded. So a body that is the JSON encoding of a value binds to
/// whatever the codec reads that encoding back as.
pub proof fn json_content_binds_decoded_body<T>(
    codecs: Codecs,
    text: Seq<char>,
    media: MediaNames,
    body: Seq<u8>,
    value: T,
)
    requires
        codecs.json,
        text.len() > 0,
        names(media, Codec::Json),
    ensures
        planned(codecs, text, Some(media)) == Ok::<Source, BindError>(Source::Body(Codec::Json)),
        framed(Codec::Json, body) == PayloadData::Json(body),
        concluded(Decoded::Json(Ok(value))) == Ok::<T, BindError>(value),
{
}

/// A request without a content type is, with the URL-encoded codec on, bound
/// from its query component and never from its body, whatever a media-type
/// parser would make of the absent header; and where the codec decodes the
/// query, the binding succeeds with the very value that it decoded.
pub proof fn no_content_type_binds_decoded_query<T>(
    codecs: Codecs,
    parsed: Option<MediaNames>,
    value: T,
)
    requires
        codecs.urlencoded,
    ensures
        planned(codecs, Seq::empty(), parsed) == Ok::<Source, BindError>(Source::Query),
        concluded(Decoded::UrlEncoded(Ok(value))) == Ok::<T, BindError>(value),
{
}

/// A content type that does not parse as a media type is an invalid mime
/// type, whichever codecs are on, unless it is the empty text and the
/// URL-encoded codec sends the binder to the query component.
pub proof fn unparseable_content_type_is_refused(codecs: Codecs, text: Seq<char>)
    requires
        !(codecs.urlencoded && text.len() == 0),
    ensures
        planned(codecs, text, None) == Err::<Source, BindError>(BindError::InvalidMimeType),
{
}

/// With the URL-encoded codec off, a request without a content type is an
/// invalid mime type, whatever a media-type parser would make of the absent
/// header.
pub proof fn no_content_type_without_urlencoded_is_refused(
    codecs: Codecs,
    parsed: Option<MediaNames>,
)
    requires
        !codecs.urlencoded,
    ensures
        planned(codecs, Seq::empty(), parsed) == Err::<Source, BindError>(
            BindError::InvalidMimeType,
        ),
{
}

/// A content type that names no codec that is on is an invalid mime type. In
/// particular one that names only codecs that are switched off is refused.
pub proof fn disabled_codec_is_refused(codecs: Codecs, text: Seq<char>, media: MediaNames)
    requires
        text.len() > 0,
        forall|codec: Codec| #[trigger] names(media, codec) ==> !codecs.enabled(codec),
    ensures
        selected(codecs, media) is None,
        dispatched(codecs, Some(media)) == Err::<Source, BindError>(BindError::InvalidMimeType),
        planned(codecs, text, Some(media)) == Err::<Source, BindError>(BindError::InvalidMimeType),
{
    assert(names(media, Codec::Json) ==> !codecs.enabled(Codec::Json));
    assert(names(media, Codec::UrlEncoded) ==> !codecs.enabled(Codec::UrlEncoded));
    assert(names(media, Codec::Xml) ==> !codecs.enabled(Codec::Xml));
}

/// A content type that names a codec that is on is never refused: the request
/// is bound from its body, by a codec that is on and that the content type
/// names.
pub proof fn enabled_codec_is_bound(
    codecs: Codecs,
    text: Seq<char>,
    media: MediaNames,
    codec: Codec,
)
    requires
        text.len() > 0,
        codecs.enabled(codec),
        names(media, codec),
    ensures
        planned(codecs, text, Some(media)) matches Ok(Source::Body(chosen)) && codecs.enabled(
            chosen,
        ) && names(media, chosen),
{
}

/// The codec that a media type selects is switched on and named by it, and
/// every codec that comes before it in the order JSON, URL-encoded, XML is
/// switched off or not named.
pub proof fn selected_codec_is_first_match(codecs: Codecs, media: MediaNames, codec: Codec)
    requires
        selected(codecs, media) == Some(codec),
    ensures
        codecs.enabled(codec),
        names(media, codec),
        codec != Codec::Json ==> !(codecs.json && names(media, Codec::Json)),
        codec == Codec::Xml ==> !(codecs.urlencoded && names(media, Codec::UrlEncoded)),
{
}

/// With every codec switched off, every request is refused as an invalid
/// mime type.
pub proof fn no_codecs_refuse_everything(text: Seq<char>, parsed: Option<MediaNames>)
    ensures
        planned(Codecs { json: false, urlencoded: false, xml: false }, text, parsed) == Err::<
            Source,
            BindError,
        >(BindError::InvalidMimeType),
{
}

} // verus!
