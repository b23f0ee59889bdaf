//! The two ways of consuming a binding: [`TryBindForm`] hands the result to
//! the handler as it is, [`BindForm`] turns a failure into a rejection that
//! is answered without the handler being run.

use crate::error::{BindError, BindResult};
use vstd::prelude::*;

verus! {

/// The status code of a rejected binding: bad request.
pub const REJECTION_STATUS: u16 = 400;

/// Try to bind form data and return the result, does not reject.
pub struct TryBindForm<T>(pub BindResult<T>);

impl<T> TryBindForm<T> {
    /// Wraps the result of a binding, whether it succeeded or failed.
    pub fn from_result(bound: BindResult<T>) -> (form: Self)
        ensures
            form.0 == bound,
    {
        TryBindForm(bound)
    }
}

/// Bind form data, rejects on error.
pub struct BindForm<T>(pub T);

impl<T> BindForm<T> {
    /// Unwraps a binding that succeeded; one that failed becomes the
    /// rejection that carries its error.
    pub fn from_result(bound: BindResult<T>) -> (form: Result<Self, BindFormRejection>)
        ensures
            match bound {
                Ok(value) => form matches Ok(f) && f.0 == value,
                Err(cause) => form matches Err(r) && r.cause() == cause,
            },
    {
        match bound {
            Ok(value) => Ok(BindForm(value)),
            Err(cause) => Err(BindFormRejection(cause)),
        }
    }
}

/// Rejection for [`BindForm`].
pub struct BindFormRejection(BindError);

/// What a rejection is answered with.
#[derive(Debug, PartialEq, Eq)]
pub struct RejectionResponse {
    /// The status code.
    pub status: u16,
    /// The value of the content-type header.
    pub content_type: &'static str,
    /// The body.
    pub body: String,
}

impl BindFormRejection {
    /// The error that caused the rejection.
    pub closed spec fn cause(&self) -> BindError {
        self.0
    }

    /// Renders the rejection: a bad request, whose plain-text body is the
    /// description of the error.
    pub fn into_response(self) -> (response: RejectionResponse)
        ensures
            response.status == REJECTION_STATUS,
            response.content_type@ == "text/plain"@,
            self.cause().described_by(response.body@),
    {
        RejectionResponse {
            status: REJECTION_STATUS,
            content_type: "text/plain",
            body: self.0.message(),
        }
    }
}

} // verus!
