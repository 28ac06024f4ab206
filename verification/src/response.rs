//! HTTP responses and their wire form.

use vstd::prelude::*;

use crate::http_checks::{header_name_normalized, header_value_is_valid, is_field_value, is_header_name, status_text, canonical_reason};
use crate::http_utils::{header_views, version_text, Version, VersionExt};
use crate::text::{chars_eq, decimal, lower_chars, str_chars, string_bytes};
use vstd::utf8::encode_utf8;

verus! {

/// An HTTP response with a body of type `T`. Header names are kept in lower case.
pub struct Response<T> {
    version: Version,
    status: u16,
    headers: Vec<(String, String)>,
    body: T,
}

/// The response type used by most of the crate.
pub type RawResponse = Response<Vec<u8>>;

/// `i` is the last header named `name`.
pub open spec fn is_last_named(hs: Seq<(Seq<char>, Seq<char>)>, name: Seq<char>, i: int) -> bool {
    &&& 0 <= i < hs.len()
    &&& hs[i].0 == name
    &&& forall|j: int| i < j < hs.len() ==> (#[trigger] hs[j]).0 != name
}

/// Headers after appending one, as `http::HeaderMap::append` orders them: right after the
/// last header of the same name, or at the end.
pub open spec fn append_header(hs: Seq<(Seq<char>, Seq<char>)>, name: Seq<char>, value: Seq<char>) -> Seq<
    (Seq<char>, Seq<char>),
> {
    if exists|i: int| is_last_named(hs, name, i) {
        hs.insert((choose|i: int| is_last_named(hs, name, i)) + 1, (name, value))
    } else {
        hs.push((name, value))
    }
}

/// Keeps the headers not named `name`.
pub open spec fn not_named(name: Seq<char>) -> spec_fn((Seq<char>, Seq<char>)) -> bool {
    |p: (Seq<char>, Seq<char>)| p.0 != name
}

proof fn lemma_filter_push(s: Seq<(Seq<char>, Seq<char>)>, x: (Seq<char>, Seq<char>), name: Seq<char>)
    ensures
        s.push(x).filter(not_named(name)) == if x.0 != name {
            s.filter(not_named(name)).push(x)
        } else {
            s.filter(not_named(name))
        },
{
    reveal(Seq::filter);
    assert(s.push(x).drop_last() == s);
}

/// Headers after inserting one, as `http::HeaderMap::insert` leaves them: the first header of
/// that name takes the new value and the others of that name go; without one, it is added at
/// the end.
pub open spec fn insert_header(hs: Seq<(Seq<char>, Seq<char>)>, name: Seq<char>, value: Seq<char>) -> Seq<
    (Seq<char>, Seq<char>),
> {
    if exists|i: int| 0 <= i < hs.len() && (#[trigger] hs[i]).0 == name {
        let i = choose|i: int| 0 <= i < hs.len() && (#[trigger] hs[i]).0 == name && forall|j: int| 0 <= j < i ==> (#[trigger] hs[j]).0 != name;
        hs.take(i).push((name, value)) + hs.skip(i + 1).filter(not_named(name))
    } else {
        hs.push((name, value))
    }
}

impl<T> Response<T> {
    #[verifier::type_invariant]
    spec fn inv(&self) -> bool {
        100 <= self.status <= 999
    }

    pub closed spec fn spec_version(&self) -> Version {
        self.version
    }

    pub closed spec fn spec_status(&self) -> u16 {
        self.status
    }

    /// The headers, in the order they are written out.
    pub closed spec fn spec_headers(&self) -> Seq<(Seq<char>, Seq<char>)> {
        header_views(self.headers@)
    }

    pub closed spec fn spec_body(&self) -> T {
        self.body
    }

    /// A response with the given status and body, no header, and version HTTP/1.1.
    pub fn new(status: u16, body: T) -> (r: Self)
        requires
            100 <= status <= 999,
        ensures
            r.spec_version() == Version::HTTP_11,
            r.spec_status() == status,
            r.spec_headers() == Seq::<(Seq<char>, Seq<char>)>::empty(),
            r.spec_body() == body,
    {
        let r = Response { version: Version::HTTP_11, status, headers: Vec::new(), body };
        assert(r.spec_headers() =~= Seq::<(Seq<char>, Seq<char>)>::empty());
        r
    }

    /// The version.
    pub fn version(&self) -> (r: Version)
        ensures
            r == self.spec_version(),
    {
        self.version
    }

    /// The status code.
    pub fn status(&self) -> (r: u16)
        ensures
            r == self.spec_status(),
            100 <= r <= 999,
    {
        proof {
            use_type_invariant(self);
        }
        self.status
    }

    /// The headers, in order.
    pub fn headers(&self) -> (r: &Vec<(String, String)>)
        ensures
            header_views(r@) == self.spec_headers(),
    {
        &self.headers
    }

    /// The body.
    pub fn body(&self) -> (r: &T)
        ensures
            *r == self.spec_body(),
    {
        &self.body
    }

    /// The same response with another version.
    pub fn with_version(self, version: Version) -> (r: Self)
        ensures
            r.spec_version() == version,
            r.spec_status() == self.spec_status(),
            r.spec_headers() == self.spec_headers(),
            r.spec_body() == self.spec_body(),
    {
        proof {
            use_type_invariant(&self);
        }
        Response { version, status: self.status, headers: self.headers, body: self.body }
    }

    /// The response with one more header, placed as `http` places an appended header. The
    /// name is stored in lower case.
    pub fn header(self, name: &str, value: &str) -> (r: Self)
        requires
            is_header_name(encode_utf8(name@)),
            is_field_value(encode_utf8(value@)),
        ensures
            r.spec_version() == self.spec_version(),
            r.spec_status() == self.spec_status(),
            r.spec_headers() == append_header(self.spec_headers(), lower_chars(name@), value@),
            r.spec_body() == self.spec_body(),
    {
        proof {
            use_type_invariant(&self);
        }
        let normal = match header_name_normalized(name) {
            Some(n) => n,
            None => {
                assert(false);
                String::new()
            },
        };
        let ncs = str_chars(normal.as_str());
        let ghost hs = header_views(self.headers@);
        let mut headers = self.headers;
        // find the last header of that name
        let mut i: usize = headers.len();
        while i > 0
            invariant
                i <= headers@.len(),
                header_views(headers@) == hs,
                forall|j: int| i <= j < hs.len() ==> (#[trigger] hs[j]).0 != ncs@,
            ensures
                i <= headers@.len(),
                header_views(headers@) == hs,
                forall|j: int| i <= j < hs.len() ==> (#[trigger] hs[j]).0 != ncs@,
                i > 0 ==> hs[i - 1].0 == ncs@,
            decreases i,
        {
            let ncur = str_chars(headers[i - 1].0.as_str());
            assert(hs[i - 1].0 == headers@[i - 1].0@);
            if chars_eq(&ncur, &ncs) {
                break;
            }
            i = i - 1;
        }
        let pair = (normal, value.to_owned());
        let ghost p = (ncs@, value@);
        if i > 0 {
            proof {
                assert(is_last_named(hs, ncs@, i - 1));
                let c = choose|c: int| is_last_named(hs, ncs@, c);
                if c < i - 1 {
                    assert(hs[i - 1].0 != ncs@);
                } else if c > i - 1 {
                    assert(hs[c].0 != ncs@);
                }
            }
            headers.insert(i, pair);
            assert(header_views(headers@) =~= hs.insert(i as int, p));
        } else {
            proof {
                assert(!exists|c: int| is_last_named(hs, ncs@, c)) by {
                    if exists|c: int| is_last_named(hs, ncs@, c) {
                        let c = choose|c: int| is_last_named(hs, ncs@, c);
                        assert(hs[c].0 != ncs@);
                    }
                }
            }
            headers.push(pair);
            assert(header_views(headers@) =~= hs.push(p));
        }
        Response { version: self.version, status: self.status, headers, body: self.body }
    }

    /// The response with one more header at the end; for names not yet present, which is
    /// where `http` puts them.
    pub(crate) fn push_header(self, name: String, value: String) -> (r: Self)
        ensures
            r.spec_version() == self.spec_version(),
            r.spec_status() == self.spec_status(),
            r.spec_headers() == self.spec_headers().push((name@, value@)),
            r.spec_body() == self.spec_body(),
    {
        proof {
            use_type_invariant(&self);
        }
        let mut headers = self.headers;
        let ghost hs = header_views(headers@);
        headers.push((name, value));
        assert(header_views(headers@) =~= hs.push((name@, value@)));
        Response { version: self.version, status: self.status, headers, body: self.body }
    }

    /// Adds a header at the end; for names not yet present, which is where `http` puts them.
    pub(crate) fn add_header(&mut self, name: String, value: String)
        ensures
            final(self).spec_version() == old(self).spec_version(),
            final(self).spec_status() == old(self).spec_status(),
            final(self).spec_headers() == old(self).spec_headers().push((name@, value@)),
            final(self).spec_body() == old(self).spec_body(),
    {
        proof {
            use_type_invariant(&*self);
        }
        let mut headers: Vec<(String, String)> = Vec::new();
        std::mem::swap(&mut headers, &mut self.headers);
        let ghost hs = header_views(headers@);
        headers.push((name, value));
        assert(header_views(headers@) =~= hs.push((name@, value@)));
        std::mem::swap(&mut headers, &mut self.headers);
    }

    /// Whether a header of that (lower case) name is present.
    pub fn contains_header(&self, name: &str) -> (r: bool)
        ensures
            r == exists|i: int| 0 <= i < self.spec_headers().len() && (#[trigger] self.spec_headers()[i]).0 == name@,
    {
        let ncs = str_chars(name);
        let ghost hs = self.spec_headers();
        let mut i: usize = 0;
        while i < self.headers.len()
            invariant
                i <= self.headers@.len(),
                hs == header_views(self.headers@),
                ncs@ == name@,
                forall|j: int| 0 <= j < i ==> (#[trigger] hs[j]).0 != name@,
            decreases self.headers@.len() - i,
        {
            let cur = str_chars(self.headers[i].0.as_str());
            assert(hs[i as int].0 == self.headers@[i as int].0@);
            if chars_eq(&cur, &ncs) {
                assert(hs[i as int].0 == name@);
                assert(self.spec_headers()[i as int].0 == name@);
                return true;
            }
            i = i + 1;
        }
        false
    }
}

impl<T> Response<T> {
    /// Sets the header `name` to `value` as `http::HeaderMap::insert` does; the name is
    /// given in lower case.
    pub(crate) fn set_header(&mut self, name: String, value: String)
        ensures
            final(self).spec_version() == old(self).spec_version(),
            final(self).spec_status() == old(self).spec_status(),
            final(self).spec_headers() == insert_header(old(self).spec_headers(), name@, value@),
            final(self).spec_body() == old(self).spec_body(),
    {
        proof {
            use_type_invariant(&*self);
        }
        let mut headers: Vec<(String, String)> = Vec::new();
        std::mem::swap(&mut headers, &mut self.headers);
        let ghost hs = header_views(headers@);
        let ncs = str_chars(name.as_str());
        let mut out: Vec<(String, String)> = Vec::new();
        let mut placed = false;
        let mut value_slot: Option<String> = Some(value);
        let ghost v = value_slot->Some_0@;
        let mut first: usize = 0;
        let mut i: usize = 0;
        while i < headers.len()
            invariant
                i <= headers@.len(),
                hs == header_views(headers@),
                ncs@ == name@,
                placed == (exists|j: int| 0 <= j < i && (#[trigger] hs[j]).0 == name@),
                !placed ==> value_slot is Some && value_slot->Some_0@ == v,
                !placed ==> header_views(out@) == hs.take(i as int),
                placed ==> {
                    &&& first < i
                    &&& hs[first as int].0 == name@
                    &&& forall|j: int| 0 <= j < first ==> (#[trigger] hs[j]).0 != name@
                    &&& header_views(out@) == hs.take(first as int).push((name@, v)) + hs.subrange(
                        first + 1,
                        i as int,
                    ).filter(not_named(name@))
                },
            decreases headers@.len() - i,
        {
            let cur = str_chars(headers[i].0.as_str());
            let same = chars_eq(&cur, &ncs);
            let ghost before = header_views(out@);
            assert(hs[i as int] == (headers@[i as int].0@, headers@[i as int].1@));
            if same {
                if !placed {
                    let val = match value_slot.take() {
                        Some(x) => x,
                        None => String::new(),
                    };
                    out.push((name.clone(), val));
                    placed = true;
                    first = i;
                    assert(hs.take(i as int) == before);
                    assert(hs.subrange(i + 1, i + 1) =~= Seq::<(Seq<char>, Seq<char>)>::empty());
                    assert(header_views(out@) =~= hs.take(first as int).push((name@, v)) + hs.subrange(
                        first + 1,
                        i + 1,
                    ).filter(not_named(name@)));
                } else {
                    assert(hs.subrange(first + 1, i + 1) == hs.subrange(first + 1, i as int).push(hs[i as int]));
                    assert(hs.subrange(first + 1, i as int).push(hs[i as int]).filter(not_named(name@)) == hs.subrange(first + 1, i as int).filter(not_named(name@))) by {
                        lemma_filter_push(hs.subrange(first + 1, i as int), hs[i as int], name@);
                    }
                }
            } else {
                let n = headers[i].0.clone();
                let val = headers[i].1.clone();
                out.push((n, val));
                if placed {
                    assert(hs.subrange(first + 1, i + 1) == hs.subrange(first + 1, i as int).push(hs[i as int]));
                    assert(hs.subrange(first + 1, i as int).push(hs[i as int]).filter(not_named(name@)) == hs.subrange(first + 1, i as int).filter(not_named(name@)).push(hs[i as int])) by {
                        lemma_filter_push(hs.subrange(first + 1, i as int), hs[i as int], name@);
                    }
                    assert(header_views(out@) =~= before.push(hs[i as int]));
                } else {
                    assert(header_views(out@) =~= before.push(hs[i as int]));
                    assert(hs.take(i + 1) == hs.take(i as int).push(hs[i as int]));
                }
            }
            i = i + 1;
        }
        if !placed {
            let val = match value_slot.take() {
                Some(x) => x,
                None => String::new(),
            };
            let ghost before = header_views(out@);
            out.push((name, val));
            assert(hs.take(i as int) == hs);
            assert(header_views(out@) =~= hs.push((name@, v)));
            assert(!(exists|j: int| 0 <= j < hs.len() && (#[trigger] hs[j]).0 == name@));
        } else {
            assert(hs.subrange(first + 1, hs.len() as int) == hs.skip(first + 1));
            assert(exists|j: int| 0 <= j < hs.len() && (#[trigger] hs[j]).0 == name@);
            let ghost c = choose|j: int| 0 <= j < hs.len() && (#[trigger] hs[j]).0 == name@ && forall|k: int| 0 <= k < j ==> (#[trigger] hs[k]).0 != name@;
            assert(c == first as int) by {
                if c < first {
                    assert(hs[c].0 != name@);
                } else if c > first {
                    assert(hs[first as int].0 != name@);
                }
            }
        }
        self.headers = out;
    }
}

/// Types that turn into the bytes of a body.
pub trait IntoRawBytes: Sized {
    /// The bytes this value turns into.
    spec fn raw_bytes(&self) -> Seq<u8>;

    fn into_raw_bytes(self) -> (r: Vec<u8>)
        ensures
            r@ == self.raw_bytes(),
    ;
}

impl IntoRawBytes for () {
    open spec fn raw_bytes(&self) -> Seq<u8> {
        seq![]
    }

    fn into_raw_bytes(self) -> (r: Vec<u8>) {
        Vec::new()
    }
}

impl IntoRawBytes for Vec<u8> {
    open spec fn raw_bytes(&self) -> Seq<u8> {
        self@
    }

    fn into_raw_bytes(self) -> (r: Vec<u8>) {
        self
    }
}

impl IntoRawBytes for String {
    open spec fn raw_bytes(&self) -> Seq<u8> {
        encode_utf8(self@)
    }

    fn into_raw_bytes(self) -> (r: Vec<u8>) {
        string_bytes(&self)
    }
}

/// The status line text that `http` renders for a code.
pub open spec fn status_line_text(code: u16) -> Seq<char> {
    decimal(code as nat) + seq![' '] + match canonical_reason(code) {
        Some(reason) => reason,
        None => "<unknown status code>"@,
    }
}

/// The bytes of the header lines: `name: value\r\n` each.
pub open spec fn header_lines_bytes(hs: Seq<(Seq<char>, Seq<char>)>) -> Seq<u8>
    decreases hs.len(),
{
    if hs.len() == 0 {
        seq![]
    } else {
        header_lines_bytes(hs.drop_last()) + encode_utf8(hs.last().0) + seq![58u8, 32u8] + encode_utf8(
            hs.last().1,
        ) + seq![13u8, 10u8]
    }
}

/// The wire form of a response: status line, header lines, a blank line, then the body.
pub open spec fn response_bytes(
    version: Version,
    status: u16,
    headers: Seq<(Seq<char>, Seq<char>)>,
    body: Seq<u8>,
) -> Seq<u8> {
    encode_utf8(version_text(version)) + seq![32u8] + encode_utf8(status_line_text(status)) + seq![
        13u8,
        10u8,
    ] + header_lines_bytes(headers) + seq![13u8, 10u8] + body
}

fn append_bytes(buf: &mut Vec<u8>, bytes: &Vec<u8>)
    ensures
        final(buf)@ == old(buf)@ + bytes@,
{
    let mut i: usize = 0;
    let ghost start = buf@;
    while i < bytes.len()
        invariant
            i <= bytes@.len(),
            buf@ == start + bytes@.take(i as int),
        decreases bytes@.len() - i,
    {
        buf.push(bytes[i]);
        assert(bytes@.take(i + 1) == bytes@.take(i as int).push(bytes@[i as int]));
        i = i + 1;
    }
    assert(bytes@.take(bytes@.len() as int) == bytes@);
}

/// Writes the status line and the header lines of a response, and the blank line after them.
fn parse_response_line_into_buf<T>(buf: &mut Vec<u8>, response: &Response<T>)
    ensures
        final(buf)@ == old(buf)@ + encode_utf8(version_text(response.spec_version())) + seq![32u8]
            + encode_utf8(status_line_text(response.spec_status())) + seq![13u8, 10u8]
            + header_lines_bytes(response.spec_headers()) + seq![13u8, 10u8],
{
    proof {
        use_type_invariant(response);
    }
    let ghost start = buf@;
    let v = response.version.to_string();
    append_bytes(buf, &string_bytes(&v));
    buf.push(32);
    let st = status_text(response.status);
    append_bytes(buf, &string_bytes(&st));
    buf.push(13);
    buf.push(10);
    let ghost line = buf@;
    let ghost hs = response.spec_headers();
    let mut i: usize = 0;
    while i < response.headers.len()
        invariant
            i <= response.headers@.len(),
            hs == header_views(response.headers@),
            buf@ == line + header_lines_bytes(hs.take(i as int)),
        decreases response.headers@.len() - i,
    {
        let ghost before = buf@;
        append_bytes(buf, &string_bytes(&response.headers[i].0));
        buf.push(58);
        buf.push(32);
        append_bytes(buf, &string_bytes(&response.headers[i].1));
        buf.push(13);
        buf.push(10);
        proof {
            assert(hs.take(i + 1).drop_last() == hs.take(i as int));
            assert(hs.take(i + 1).last() == hs[i as int]);
            assert(hs[i as int] == (response.headers@[i as int].0@, response.headers@[i as int].1@));
            assert(buf@ =~= line + header_lines_bytes(hs.take(i + 1)));
        }
        i = i + 1;
    }
    buf.push(13);
    buf.push(10);
    assert(hs.take(i as int) == hs);
    assert(buf@ =~= start + encode_utf8(version_text(response.spec_version())) + seq![32u8]
        + encode_utf8(status_line_text(response.spec_status())) + seq![13u8, 10u8]
        + header_lines_bytes(hs) + seq![13u8, 10u8]);
}

impl<T: IntoRawBytes> IntoRawBytes for Response<T> {
    open spec fn raw_bytes(&self) -> Seq<u8> {
        response_bytes(self.spec_version(), self.spec_status(), self.spec_headers(), self.spec_body().raw_bytes())
    }

    /// The wire form of the response: the status line, the headers, a blank line, the body.
    fn into_raw_bytes(self) -> (r: Vec<u8>) {
        let mut buf: Vec<u8> = Vec::new();
        parse_response_line_into_buf(&mut buf, &self);
        let body = self.body.into_raw_bytes();
        append_bytes(&mut buf, &body);
        assert(buf@ =~= response_bytes(
            self.spec_version(),
            self.spec_status(),
            self.spec_headers(),
            self.spec_body().raw_bytes(),
        ));
        buf
    }
}

/// Conversion of a response into one whose body is bytes.
pub trait ResponseExt: Sized {
    fn into_raw_response(self) -> RawResponse;
}

impl<T: IntoRawBytes> ResponseExt for Response<T> {
    /// The same response with its body turned into bytes.
    fn into_raw_response(self) -> (r: RawResponse)
        ensures
            r.spec_version() == self.spec_version(),
            r.spec_status() == self.spec_status(),
            r.spec_headers() == self.spec_headers(),
            r.spec_body()@ == self.spec_body().raw_bytes(),
    {
        proof {
            use_type_invariant(&self);
        }
        let body = self.body.into_raw_bytes();
        Response { version: self.version, status: self.status, headers: self.headers, body }
    }
}

} // verus!
