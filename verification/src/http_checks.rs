//! The checks that the `http` crate applies when a request or response is built from text,
//! and the status line text it renders.

use vstd::prelude::*;

verus! {

/// RFC 7230 token characters, the bytes that the `http` crate accepts in method names and
/// header names.
pub open spec fn is_tchar(b: u8) -> bool {
    ||| b == 33 || b == 35 || b == 36 || b == 37 || b == 38 || b == 39
    ||| b == 42 || b == 43 || b == 45 || b == 46
    ||| 48 <= b <= 57
    ||| 65 <= b <= 90
    ||| b == 94 || b == 95 || b == 96
    ||| 97 <= b <= 122
    ||| b == 124 || b == 126
}

/// A non-empty run of token characters.
pub open spec fn is_token(bytes: Seq<u8>) -> bool {
    &&& bytes.len() > 0
    &&& forall|i: int| 0 <= i < bytes.len() ==> is_tchar(#[trigger] bytes[i])
}

/// A byte that `http` accepts inside a header value: visible or obsolete text, space or tab.
pub open spec fn is_field_byte(b: u8) -> bool {
    (b >= 32 && b != 127) || b == 9
}

/// Whether `http` accepts these bytes as a header value.
pub open spec fn is_field_value(bytes: Seq<u8>) -> bool {
    forall|i: int| 0 <= i < bytes.len() ==> is_field_byte(#[trigger] bytes[i])
}

/// Whether `http` accepts these bytes as a header name.
pub open spec fn is_header_name(bytes: Seq<u8>) -> bool {
    is_token(bytes) && bytes.len() <= 65535
}

/// Whether `http::Uri` parses this text; the URI grammar of the `http` crate.
pub uninterp spec fn uri_accepts(uri: Seq<char>) -> bool;

/// The reason phrase that `http::StatusCode::canonical_reason` gives for a code.
pub uninterp spec fn canonical_reason(code: u16) -> Option<Seq<char>>;

/// The path component that `http::Uri::path` gives for a request target.
pub uninterp spec fn uri_path_of(uri: Seq<char>) -> Seq<char>;

/// The text that `Display` of `http::Uri` writes for a request target.
pub uninterp spec fn uri_text_of(uri: Seq<char>) -> Seq<char>;

/// Characters that `http::HeaderValue::to_str` accepts: visible ASCII and the tab.
pub open spec fn is_visible_text(s: Seq<char>) -> bool {
    forall|i: int|
        0 <= i < s.len() ==> ((32 <= (#[trigger] s[i]) as u32 && (s[i] as u32) < 127) || s[i] == '\t')
}

/// `http::Method::from_bytes`: accepts exactly the non-empty strings of token characters.
#[verifier::external_body]
pub(crate) fn method_is_valid(method: &str) -> (r: bool)
    ensures
        r == is_token(vstd::utf8::encode_utf8(method@)),
{
    http::Method::from_bytes(method.as_bytes()).is_ok()
}

/// `http::Uri::try_from`: whether the text parses as a URI.
#[verifier::external_body]
pub(crate) fn uri_is_valid(uri: &str) -> (r: bool)
    ensures
        r == uri_accepts(uri@),
{
    http::Uri::try_from(uri).is_ok()
}

/// `http::HeaderValue::from_str`: accepts exactly the strings whose bytes are all field bytes.
#[verifier::external_body]
pub(crate) fn header_value_is_valid(value: &str) -> (r: bool)
    ensures
        r == is_field_value(vstd::utf8::encode_utf8(value@)),
{
    http::HeaderValue::from_str(value).is_ok()
}

/// `http::HeaderName::from_bytes`: accepts a token of at most 65535 bytes and normalises it
/// to ASCII lower case; `None` when the name is refused.
#[verifier::external_body]
pub(crate) fn header_name_normalized(name: &str) -> (r: Option<String>)
    ensures
        r is Some <==> is_header_name(vstd::utf8::encode_utf8(name@)),
        r matches Some(n) ==> n@ == crate::text::lower_chars(name@),
{
    match http::HeaderName::from_bytes(name.as_bytes()) {
        Ok(n) => Some(n.as_str().to_string()),
        Err(_) => None,
    }
}

/// `Display` of `http::StatusCode`: the code in three digits, a space, and the canonical
/// reason phrase, or `<unknown status code>` when the code has none.
#[verifier::external_body]
pub(crate) fn status_text(code: u16) -> (r: String)
    requires
        100 <= code <= 999,
    ensures
        r@ == crate::text::decimal(code as nat) + seq![' '] + match canonical_reason(code) {
            Some(reason) => reason,
            None => "<unknown status code>"@,
        },
{
    match http::StatusCode::from_u16(code) {
        Ok(status) => status.to_string(),
        Err(_) => String::new(),
    }
}

/// `http::Uri::try_from` followed by `path`: the path of a request target, `None` when the
/// text does not parse as a URI.
#[verifier::external_body]
pub(crate) fn uri_path(uri: &str) -> (r: Option<String>)
    ensures
        r is Some <==> uri_accepts(uri@),
        r matches Some(p) ==> p@ == uri_path_of(uri@),
{
    match http::Uri::try_from(uri) {
        Ok(u) => Some(u.path().to_string()),
        Err(_) => None,
    }
}

/// `http::Uri::try_from` followed by `to_string`: the request target as `http` writes it back,
/// `None` when the text does not parse as a URI.
#[verifier::external_body]
pub(crate) fn uri_text(uri: &str) -> (r: Option<String>)
    ensures
        r is Some <==> uri_accepts(uri@),
        r matches Some(t) ==> t@ == uri_text_of(uri@),
{
    match http::Uri::try_from(uri) {
        Ok(u) => Some(u.to_string()),
        Err(_) => None,
    }
}

/// `http::HeaderValue::from_str` followed by `to_str`: the text of a header value, which
/// `http` gives back when every character is visible ASCII or a tab, and refuses otherwise.
#[verifier::external_body]
pub(crate) fn header_value_text(value: &str) -> (r: Option<String>)
    ensures
        r is Some <==> is_visible_text(value@),
        r matches Some(t) ==> t@ == value@,
{
    match http::HeaderValue::from_str(value) {
        Ok(v) => match v.to_str() {
            Ok(t) => Some(t.to_string()),
            Err(_) => None,
        },
        Err(_) => None,
    }
}

} // verus!
