//! What a system hands back: responses, and the action the router takes.

use vstd::prelude::*;

use crate::error::{Error, IntoResponseError};
use crate::websocket::UpgradeHandler;
use crate::http_utils::Version;
use crate::response::{IntoRawBytes, RawResponse, Response, ResponseExt};
use crate::text::{decimal, decimal_string, string_bytes};
use vstd::utf8::encode_utf8;

verus! {

/// Types that always turn into a response.
pub trait IntoResponse: Sized {
    /// Whether `response` may be called on this value; any value, unless an impl says less.
    open spec fn response_ok(&self) -> bool {
        true
    }

    /// Whether `r` is the response this value stands for; an impl that says nothing of it
    /// leaves it open.
    open spec fn responds_with(&self, r: RawResponse) -> bool {
        true
    }

    fn response(self) -> (r: RawResponse)
        requires
            self.response_ok(),
        ensures
            self.responds_with(r),
    ;
}

/// The bare response of a status code: HTTP/1.1, a plain text content type, a zero content
/// length and no body.
pub open spec fn is_status_response(r: RawResponse, code: u16) -> bool {
    &&& r.spec_version() == Version::HTTP_11
    &&& r.spec_status() == code
    &&& r.spec_headers() == seq![
        ("content-type"@, "text/plain; charset=UTF-8"@),
        ("content-length"@, "0"@),
    ]
    &&& r.spec_body()@ == Seq::<u8>::empty()
}

/// A 200 response over HTTP/1.1 carrying `body` with the given content type and its length.
pub open spec fn is_content_response(r: RawResponse, content_type: Seq<char>, body: Seq<u8>) -> bool {
    &&& r.spec_version() == Version::HTTP_11
    &&& r.spec_status() == 200
    &&& r.spec_headers() == seq![
        ("content-type"@, content_type),
        ("content-length"@, decimal(body.len())),
    ]
    &&& r.spec_body()@ == body
}

impl IntoResponse for u16 {
    open spec fn response_ok(&self) -> bool {
        100 <= *self <= 999
    }

    open spec fn responds_with(&self, r: RawResponse) -> bool {
        is_status_response(r, *self)
    }

    /// The bare response of the status code.
    fn response(self) -> (r: RawResponse) {
        let r = Response::new(self, Vec::new()).push_header(
            "content-type".to_owned(),
            "text/plain; charset=UTF-8".to_owned(),
        ).push_header("content-length".to_owned(), "0".to_owned());
        assert(r.spec_headers() =~= seq![
            ("content-type"@, "text/plain; charset=UTF-8"@),
            ("content-length"@, "0"@),
        ]);
        r
    }
}

fn content_response(content_type: &str, body: Vec<u8>) -> (r: RawResponse)
    ensures
        is_content_response(r, content_type@, body@),
{
    let len = decimal_string(body.len());
    let ghost b = body@;
    let r = Response::new(200, body).push_header("content-type".to_owned(), content_type.to_owned()).push_header(
        "content-length".to_owned(),
        len,
    );
    assert(r.spec_headers() =~= seq![
        ("content-type"@, content_type@),
        ("content-length"@, decimal(b.len())),
    ]);
    r
}

/// A response with the content type `application/octet-stream`.
pub struct Raw(pub Vec<u8>);

impl IntoResponse for Raw {
    open spec fn response_ok(&self) -> bool {
        true
    }

    open spec fn responds_with(&self, r: RawResponse) -> bool {
        is_content_response(r, "application/octet-stream"@, self.0@)
    }

    fn response(self) -> (r: RawResponse) {
        content_response("application/octet-stream", self.0)
    }
}

/// A response with the content type `text/plain`.
pub struct Plain(pub String);

impl IntoResponse for Plain {
    open spec fn response_ok(&self) -> bool {
        true
    }

    open spec fn responds_with(&self, r: RawResponse) -> bool {
        is_content_response(r, "text/plain; charset=utf-8"@, encode_utf8(self.0@))
    }

    fn response(self) -> (r: RawResponse) {
        content_response("text/plain; charset=utf-8", string_bytes(&self.0))
    }
}

/// A response with the content type `text/html`.
pub struct Html(pub String);

impl IntoResponse for Html {
    open spec fn response_ok(&self) -> bool {
        true
    }

    open spec fn responds_with(&self, r: RawResponse) -> bool {
        is_content_response(r, "text/html; charset=utf-8"@, encode_utf8(self.0@))
    }

    fn response(self) -> (r: RawResponse) {
        content_response("text/html; charset=utf-8", string_bytes(&self.0))
    }
}

/// A response with the content type `text/css`.
pub struct Css(pub String);

impl IntoResponse for Css {
    open spec fn response_ok(&self) -> bool {
        true
    }

    open spec fn responds_with(&self, r: RawResponse) -> bool {
        is_content_response(r, "text/css; charset=utf-8"@, encode_utf8(self.0@))
    }

    fn response(self) -> (r: RawResponse) {
        content_response("text/css; charset=utf-8", string_bytes(&self.0))
    }
}

/// A response with the content type `text/javascript`.
pub struct Js(pub String);

impl IntoResponse for Js {
    open spec fn response_ok(&self) -> bool {
        true
    }

    open spec fn responds_with(&self, r: RawResponse) -> bool {
        is_content_response(r, "text/javascript; charset=utf-8"@, encode_utf8(self.0@))
    }

    fn response(self) -> (r: RawResponse) {
        content_response("text/javascript; charset=utf-8", string_bytes(&self.0))
    }
}

impl<T: IntoRawBytes> IntoResponse for Response<T> {
    open spec fn response_ok(&self) -> bool {
        true
    }

    open spec fn responds_with(&self, r: RawResponse) -> bool {
        &&& r.spec_version() == self.spec_version()
        &&& r.spec_status() == self.spec_status()
        &&& r.spec_headers() == self.spec_headers()
        &&& r.spec_body()@ == self.spec_body().raw_bytes()
    }

    /// The same response with its body turned into bytes.
    fn response(self) -> (r: RawResponse) {
        self.into_raw_response()
    }
}

/// An action to take on the current request.
pub enum Action {
    /// Respond to the request.
    Respond(RawResponse),
    /// Hand the error to the error handling, which answers with its response.
    Fail(Error),
    /// Answer with the response of an error of the application's own.
    AppError(Box<dyn IntoResponseError>),
    /// Upgrade the connection to a websocket: answer the handshake, then hand the stream to
    /// the handler.
    Upgrade(UpgradeHandler),
}

impl Action {
    /// The action of failing with `e`.
    pub fn err(e: Error) -> (r: Action)
        ensures
            r == Action::Fail(e),
    {
        Action::Fail(e)
    }
}

/// Types a system may return; they decide what the router does.
pub trait IntoAction: Sized {
    /// Whether `action` may be called on this value; any value, unless an impl says less.
    open spec fn action_ok(&self) -> bool {
        true
    }

    /// Whether `a` is the action this value stands for; an impl that says nothing of it
    /// leaves it open.
    open spec fn acts_as(&self, a: Action) -> bool {
        true
    }

    fn action(self) -> (r: Action)
        requires
            self.action_ok(),
        ensures
            self.acts_as(r),
    ;
}

impl<T: IntoResponse> IntoAction for T {
    open spec fn action_ok(&self) -> bool {
        self.response_ok()
    }

    open spec fn acts_as(&self, a: Action) -> bool {
        a is Respond && self.responds_with(a->Respond_0)
    }

    /// A response answers the request.
    fn action(self) -> (r: Action) {
        Action::Respond(self.response())
    }
}

impl IntoAction for () {
    open spec fn action_ok(&self) -> bool {
        true
    }

    open spec fn acts_as(&self, a: Action) -> bool {
        a == Action::Fail(Error::NotFound)
    }

    /// Returning nothing fails with "not found".
    fn action(self) -> (r: Action) {
        Action::err(Error::NotFound)
    }
}

impl<T: IntoAction> IntoAction for Option<T> {
    open spec fn action_ok(&self) -> bool {
        match self {
            Some(v) => v.action_ok(),
            None => true,
        }
    }

    open spec fn acts_as(&self, a: Action) -> bool {
        match self {
            Some(v) => v.acts_as(a),
            None => a == Action::Fail(Error::InternalServer),
        }
    }

    /// `Some` acts as its value; `None` fails with an internal server error.
    fn action(self) -> (r: Action) {
        match self {
            Some(v) => v.action(),
            None => Action::err(Error::InternalServer),
        }
    }
}

impl<T: IntoAction, E: IntoAction> IntoAction for Result<T, E> {
    open spec fn action_ok(&self) -> bool {
        match self {
            Ok(v) => v.action_ok(),
            Err(e) => e.action_ok(),
        }
    }

    open spec fn acts_as(&self, a: Action) -> bool {
        match self {
            Ok(v) => v.acts_as(a),
            Err(e) => e.acts_as(a),
        }
    }

    /// Acts as the value or as the error.
    fn action(self) -> (r: Action) {
        match self {
            Ok(v) => v.action(),
            Err(e) => e.action(),
        }
    }
}

} // verus!
