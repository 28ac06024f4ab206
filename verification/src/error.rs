//! The errors that routing and resolving report, and the responses they stand for.

use vstd::prelude::*;

use crate::action::{is_status_response, IntoResponse};
use crate::response::RawResponse;

verus! {

#[derive(Clone, Copy, Debug, PartialEq, Eq, Structural)]
pub enum Error {
    NotAuthorized,
    NotFound,
    MalformedRequest,
    InternalServer,
    QueryNotInCache,
    MissingUrlPart,
}

impl Error {
    /// The status code the error is answered with.
    pub open spec fn status_code(self) -> u16 {
        match self {
            Error::NotAuthorized => 401,
            Error::MalformedRequest => 400,
            Error::NotFound => 404,
            Error::InternalServer => 500,
            Error::QueryNotInCache => 500,
            Error::MissingUrlPart => 404,
        }
    }

    /// The human readable text of the error.
    pub fn message(&self) -> (r: String)
        ensures
            r@ == match *self {
                Error::NotAuthorized => "Not Authorized"@,
                Error::NotFound => "Not Found"@,
                Error::MalformedRequest => "Malformed Request"@,
                Error::InternalServer => "Internal Server Error"@,
                Error::QueryNotInCache => "Query Not in Cache"@,
                Error::MissingUrlPart => "Missing Required Url Part"@,
            },
    {
        match self {
            Error::NotAuthorized => "Not Authorized".to_owned(),
            Error::NotFound => "Not Found".to_owned(),
            Error::MalformedRequest => "Malformed Request".to_owned(),
            Error::InternalServer => "Internal Server Error".to_owned(),
            Error::QueryNotInCache => "Query Not in Cache".to_owned(),
            Error::MissingUrlPart => "Missing Required Url Part".to_owned(),
        }
    }
}

impl IntoResponse for Error {
    open spec fn response_ok(&self) -> bool {
        true
    }

    open spec fn responds_with(&self, r: RawResponse) -> bool {
        is_status_response(r, self.status_code())
    }

    /// The bare status response for the error's code.
    fn response(self) -> (r: RawResponse) {
        let code: u16 = match self {
            Error::NotAuthorized => 401,
            Error::MalformedRequest => 400,
            Error::NotFound => 404,
            Error::InternalServer => 500,
            Error::QueryNotInCache => 500,
            Error::MissingUrlPart => 404,
        };
        code.response()
    }
}

/// An error of the application's own, answered with a response of its own.
pub trait IntoResponseError: Send + Sync {
    /// Whether `r` is the response the error is answered with; an impl that says nothing of
    /// it leaves it open.
    open spec fn error_response(&self, r: RawResponse) -> bool {
        true
    }

    fn box_response(&self) -> (r: RawResponse)
        ensures
            self.error_response(r),
    ;
}

impl IntoResponseError for Error {
    open spec fn error_response(&self, r: RawResponse) -> bool {
        is_status_response(r, self.status_code())
    }

    /// The bare status response for the error's code.
    fn box_response(&self) -> (r: RawResponse) {
        (*self).response()
    }
}

} // verus!
