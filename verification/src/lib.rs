//! Content-type driven binding of request payloads.
//!
//! A request names the format of its payload in its content-type header. The
//! binder reads that header, picks the codec that decodes the payload (JSON,
//! URL-encoded form data or XML, each of which can be switched off) and turns
//! the codec's answer into a value or a classified [`BindError`].

pub mod bind;
pub mod error;
pub mod form;
pub mod laws;
pub mod media;

pub use bind::{Codec, Codecs, Decoded, Payload, Source};
pub use error::{BindError, BindResult};
pub use form::{BindForm, BindFormRejection, RejectionResponse, TryBindForm};
pub use media::MediaType;
