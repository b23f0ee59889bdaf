//! The ways in which binding a request can fail.

use axum::extract::rejection::BytesRejection;
use std::fmt::Display;
use vstd::prelude::*;
use vstd::string::*;

verus! {

/// `axum::extract::rejection::BytesRejection`, opaque to the verifier.
#[verifier::external_type_specification]
#[verifier::external_body]
pub struct ExBytesRejection(BytesRejection);

/// `serde_json::Error`, opaque to the verifier.
#[verifier::external_type_specification]
#[verifier::external_body]
pub struct ExJsonError(serde_json::Error);

/// `serde_urlencoded::de::Error`, opaque to the verifier.
#[verifier::external_type_specification]
#[verifier::external_body]
pub struct ExUrlEncodedError(serde_urlencoded::de::Error);

/// `serde_xml_rs::Error`, opaque to the verifier.
#[verifier::external_type_specification]
#[verifier::external_body]
pub struct ExXmlError(serde_xml_rs::Error);

/// Errors that can occur when binding.
#[derive(Debug)]
#[non_exhaustive]
pub enum BindError {
    /// The content type is unparseable, or names no enabled codec.
    InvalidMimeType,
    /// The body could not be buffered.
    BodyReadError(BytesRejection),
    /// JSON deserialization error.
    JsonError(serde_json::Error),
    /// URL-encoded deserialization error, of a body or of a query string.
    UrlEncodedError(serde_urlencoded::de::Error),
    /// XML deserialization error.
    XmlError(serde_xml_rs::Error),
}

/// Result of binding.
pub type BindResult<T> = Result<T, BindError>;

/// `text` is what `value` displays as, that is what `to_string` gives for it.
pub open spec fn displays<E: Display>(value: &E, text: Seq<char>) -> bool {
    exists|s: String| #[trigger] to_string_from_display_ensures::<E>(value, s) && s@ == text
}

/// `text` is `prefix` followed by what `cause` displays as.
pub open spec fn prefixed<E: Display>(prefix: Seq<char>, cause: &E, text: Seq<char>) -> bool {
    exists|detail: Seq<char>| #[trigger] displays(cause, detail) && text == prefix + detail
}

impl BindError {
    /// `text` is the human-readable description of this error: the name of
    /// its kind and, where it wraps a cause, a colon and what the cause
    /// displays as.
    pub open spec fn described_by(&self, text: Seq<char>) -> bool {
        match self {
            BindError::InvalidMimeType => text == "invalid mime type"@,
            BindError::BodyReadError(e) => prefixed("body read error: "@, e, text),
            BindError::JsonError(e) => prefixed("json error: "@, e, text),
            BindError::UrlEncodedError(e) => prefixed("urlencoded error: "@, e, text),
            BindError::XmlError(e) => prefixed("xml error: "@, e, text),
        }
    }

    /// The human-readable description of this error.
    pub fn message(&self) -> (text: String)
        ensures
            self.described_by(text@),
    {
        match self {
            BindError::InvalidMimeType => "invalid mime type".to_owned(),
            BindError::BodyReadError(e) => with_cause("body read error: ", e),
            BindError::JsonError(e) => with_cause("json error: ", e),
            BindError::UrlEncodedError(e) => with_cause("urlencoded error: ", e),
            BindError::XmlError(e) => with_cause("xml error: ", e),
        }
    }
}

/// `prefix` followed by what `cause` displays as.
fn with_cause<E: Display>(prefix: &str, cause: &E) -> (text: String)
    ensures
        prefixed(prefix@, cause, text@),
{
    let detail = cause.to_string();
    let text = prefix.to_owned().concat(detail.as_str());
    proof {
        // the witness of `prefixed`
        assert(displays(cause, detail@));
    }
    text
}

} // verus!
