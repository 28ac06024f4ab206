//! Parsing of HTTP/1 request heads and the HTTP version type.

use vstd::prelude::*;

use crate::http_checks::{
    header_value_text, is_visible_text, header_name_normalized, header_value_is_valid, is_field_value, is_header_name, is_token,
    method_is_valid, uri_accepts, uri_is_valid,
};
use crate::text::{
    chars_eq, is_first, lemma_first_unique,
    chars_eq_ignore_case, eq_ignore_case, find_char, first_index, lemma_split_on_nonempty, lower_chars, split_chars, split_on,
    str_chars, string_from_chars, sub_chars, trim_ows, trim_ows_from, utf8_str, views,
};
use vstd::utf8::{decode_utf8, encode_utf8, valid_utf8};

verus! {

/// Version of the HTTP protocol.
#[allow(non_camel_case_types)]
#[derive(Clone, Copy, Debug, PartialEq, Eq, Structural)]
pub enum Version {
    HTTP_09,
    HTTP_10,
    HTTP_11,
    HTTP_2,
    HTTP_3,
}

/// Errors while parsing requests.
#[derive(Clone, Copy, Debug, PartialEq, Eq, Structural)]
pub enum ParseError {
    Unfinished,
    MalformedRequest,
    InvalidEncoding,
    InvalidProtocolVer,
}

impl ParseError {
    /// The human readable text of the error.
    pub fn message(&self) -> (r: String)
        ensures
            r@ == match *self {
                ParseError::Unfinished => "unfinished"@,
                ParseError::MalformedRequest => "Malformed Request"@,
                ParseError::InvalidEncoding => "Invalid utf-8"@,
                ParseError::InvalidProtocolVer => "Invalid Protocol"@,
            },
    {
        match self {
            ParseError::Unfinished => "unfinished".to_owned(),
            ParseError::MalformedRequest => "Malformed Request".to_owned(),
            ParseError::InvalidEncoding => "Invalid utf-8".to_owned(),
            ParseError::InvalidProtocolVer => "Invalid Protocol".to_owned(),
        }
    }
}

/// The text of a version, as it stands in a request or status line.
pub open spec fn version_text(v: Version) -> Seq<char> {
    match v {
        Version::HTTP_09 => seq!['H', 'T', 'T', 'P', '/', '0', '.', '9'],
        Version::HTTP_10 => seq!['H', 'T', 'T', 'P', '/', '1', '.', '0'],
        Version::HTTP_11 => seq!['H', 'T', 'T', 'P', '/', '1', '.', '1'],
        Version::HTTP_2 => seq!['H', 'T', 'T', 'P', '/', '2', '.', '0'],
        Version::HTTP_3 => seq!['H', 'T', 'T', 'P', '/', '3', '.', '0'],
    }
}

/// The version named by a text, if it names one.
pub open spec fn spec_parse_version(s: Seq<char>) -> Option<Version> {
    if s == version_text(Version::HTTP_09) {
        Some(Version::HTTP_09)
    } else if s == version_text(Version::HTTP_10) {
        Some(Version::HTTP_10)
    } else if s == version_text(Version::HTTP_11) {
        Some(Version::HTTP_11)
    } else if s == version_text(Version::HTTP_2) {
        Some(Version::HTTP_2)
    } else if s == version_text(Version::HTTP_3) {
        Some(Version::HTTP_3)
    } else {
        None
    }
}

fn version_chars(v: Version) -> (r: Vec<char>)
    ensures
        r@ == version_text(v),
{
    let (a, b) = match v {
        Version::HTTP_09 => ('0', '9'),
        Version::HTTP_10 => ('1', '0'),
        Version::HTTP_11 => ('1', '1'),
        Version::HTTP_2 => ('2', '0'),
        Version::HTTP_3 => ('3', '0'),
    };
    let r = vec!['H', 'T', 'T', 'P', '/', a, '.', b];
    assert(r@ =~= version_text(v));
    r
}

fn version_of_chars(cs: &[char]) -> (r: Option<Version>)
    ensures
        r == spec_parse_version(cs@),
{
    if cs.len() != 8 || cs[0] != 'H' || cs[1] != 'T' || cs[2] != 'T' || cs[3] != 'P' || cs[4]
        != '/' || cs[6] != '.' {
        proof {
            assert(cs@ != version_text(Version::HTTP_09) ==> true);
            if cs@.len() == 8 {
                assert(version_text(Version::HTTP_09)[0] == 'H');
            }
        }
        return None;
    }
    let a = cs[5];
    let b = cs[7];
    let r = if a == '0' && b == '9' {
        Some(Version::HTTP_09)
    } else if a == '1' && b == '0' {
        Some(Version::HTTP_10)
    } else if a == '1' && b == '1' {
        Some(Version::HTTP_11)
    } else if a == '2' && b == '0' {
        Some(Version::HTTP_2)
    } else if a == '3' && b == '0' {
        Some(Version::HTTP_3)
    } else {
        None
    };
    proof {
        match r {
            Some(v) => {
                assert(cs@ =~= version_text(v));
            },
            None => {
                assert(version_text(Version::HTTP_09)[5] == '0');
            },
        }
    }
    r
}

/// `Version` extension trait
pub trait VersionExt: Sized {
    /// Parse `Version` from a `&str`. Returns `Err` if the `&str` isn't a valid version of the HTTP protocol
    fn parse_version(s: &str) -> Result<Self, ParseError>;

    /// Convert a `Version` to a `String`
    fn to_string(&self) -> String;
}

impl VersionExt for Version {
    fn parse_version(s: &str) -> (r: Result<Version, ParseError>)
        ensures
            r == match spec_parse_version(s@) {
                Some(v) => Ok::<Version, ParseError>(v),
                None => Err(ParseError::InvalidProtocolVer),
            },
    {
        let cs = str_chars(s);
        match version_of_chars(&cs) {
            Some(v) => Ok(v),
            None => Err(ParseError::InvalidProtocolVer),
        }
    }

    fn to_string(&self) -> (r: String)
        ensures
            r@ == version_text(*self),
    {
        let cs = version_chars(*self);
        string_from_chars(&cs)
    }
}


/// An HTTP request: the head as text, and a body of type `B`.
pub struct Request<B> {
    pub method: String,
    pub uri: String,
    pub version: Version,
    /// Header names and values, in the order they were given.
    pub headers: Vec<(String, String)>,
    pub body: B,
}

/// The head of a request as mathematical values.
pub struct HeadModel {
    pub method: Seq<char>,
    pub uri: Seq<char>,
    pub version: Version,
    pub headers: Seq<(Seq<char>, Seq<char>)>,
}

/// Character views of a list of header pairs.
pub open spec fn header_views(h: Seq<(String, String)>) -> Seq<(Seq<char>, Seq<char>)> {
    h.map_values(|p: (String, String)| (p.0@, p.1@))
}

/// The value of the first header named `name`, ignoring ASCII case.
pub open spec fn header_lookup(hs: Seq<(Seq<char>, Seq<char>)>, name: Seq<char>) -> Option<Seq<char>>
    decreases hs.len(),
{
    if hs.len() == 0 {
        None
    } else if eq_ignore_case(hs[0].0, name) {
        Some(hs[0].1)
    } else {
        header_lookup(hs.drop_first(), name)
    }
}

impl<B> Request<B> {
    /// The head of this request as mathematical values.
    pub open spec fn head(&self) -> HeadModel {
        HeadModel {
            method: self.method@,
            uri: self.uri@,
            version: self.version,
            headers: header_views(self.headers@),
        }
    }

    /// The value of the first header named `name`, ignoring ASCII case.
    pub fn header(&self, name: &str) -> (r: Option<&String>)
        ensures
            match r {
                Some(v) => header_lookup(header_views(self.headers@), name@) == Some(v@),
                None => header_lookup(header_views(self.headers@), name@) is None,
            },
    {
        let wanted = str_chars(name);
        let ghost hs = header_views(self.headers@);
        let mut i: usize = 0;
        assert(hs.skip(0) == hs);
        while i < self.headers.len()
            invariant
                i <= self.headers@.len(),
                hs == header_views(self.headers@),
                wanted@ == name@,
                header_lookup(hs, name@) == header_lookup(hs.skip(i as int), name@),
            decreases self.headers@.len() - i,
        {
            let key = str_chars(self.headers[i].0.as_str());
            assert(hs.skip(i as int)[0] == hs[i as int]);
            if chars_eq_ignore_case(&key, &wanted) {
                return Some(&self.headers[i].1);
            }
            assert(hs.skip(i as int).drop_first() == hs.skip(i + 1));
            i = i + 1;
        }
        None
    }
}

/// `input[i..i + 4]` is the blank line `\r\n\r\n` that ends a request head.
pub open spec fn blank_line_at(input: Seq<u8>, i: int) -> bool {
    &&& 0 <= i
    &&& i + 4 <= input.len()
    &&& input[i] == 13
    &&& input[i + 1] == 10
    &&& input[i + 2] == 13
    &&& input[i + 3] == 10
}

/// The index just past the first `\r\n\r\n` at or after `from`.
pub open spec fn head_end_from(input: Seq<u8>, from: int) -> Option<int>
    decreases input.len() - from,
{
    if from < 0 || from + 4 > input.len() {
        None
    } else if blank_line_at(input, from) {
        Some(from + 4)
    } else {
        head_end_from(input, from + 1)
    }
}

/// The length of the request head: everything up to and including the first blank line.
pub open spec fn head_end(input: Seq<u8>) -> Option<int> {
    head_end_from(input, 0)
}

fn find_head_end(input: &[u8]) -> (r: Option<usize>)
    ensures
        r matches Some(n) ==> head_end(input@) == Some(n as int) && n <= input@.len(),
        r is None ==> head_end(input@) is None,
{
    let mut i: usize = 0;
    while i < input.len() && input.len() - i >= 4
        invariant
            i <= input@.len(),
            head_end(input@) == head_end_from(input@, i as int),
        decreases input@.len() - i,
    {
        if input[i] == 13 && input[i + 1] == 10 && input[i + 2] == 13 && input[i + 3] == 10 {
            return Some(i + 4);
        }
        i = i + 1;
    }
    None
}

/// `s.split("\r\n")`: the lines of a request head.
pub open spec fn split_crlf(s: Seq<char>) -> Seq<Seq<char>>
    decreases s.len(),
{
    if s.len() == 0 {
        seq![Seq::<char>::empty()]
    } else {
        let p = split_crlf(s.drop_last());
        if s.last() == '\n' && p.last().len() > 0 && p.last().last() == '\r' {
            p.update(p.len() - 1, p.last().drop_last()).push(Seq::<char>::empty())
        } else {
            p.update(p.len() - 1, p.last().push(s.last()))
        }
    }
}

pub proof fn lemma_split_crlf_nonempty(s: Seq<char>)
    ensures
        split_crlf(s).len() >= 1,
    decreases s.len(),
{
    if s.len() > 0 {
        lemma_split_crlf_nonempty(s.drop_last());
    }
}

fn split_lines(cs: &[char]) -> (r: Vec<Vec<char>>)
    ensures
        views(r@) == split_crlf(cs@),
{
    let mut pieces: Vec<Vec<char>> = Vec::new();
    let mut cur: Vec<char> = Vec::new();
    let mut i: usize = 0;
    while i < cs.len()
        invariant
            i <= cs@.len(),
            views(pieces@).push(cur@) == split_crlf(cs@.take(i as int)),
        decreases cs@.len() - i,
    {
        let c = cs[i];
        let ghost old_pieces = pieces@;
        let ghost old_cur = cur@;
        proof {
            lemma_split_crlf_nonempty(cs@.take(i as int));
            assert(cs@.take(i + 1).drop_last() == cs@.take(i as int));
            assert(cs@.take(i + 1).last() == c);
        }
        if c == '\n' && cur.len() > 0 && cur[cur.len() - 1] == '\r' {
            cur.pop();
            pieces.push(cur);
            cur = Vec::new();
            assert(views(pieces@).push(cur@) =~= views(old_pieces).push(old_cur).update(
                views(old_pieces).len() as int,
                old_cur.drop_last(),
            ).push(Seq::<char>::empty()));
        } else {
            cur.push(c);
            assert(views(pieces@).push(cur@) =~= views(old_pieces).push(old_cur).update(
                views(old_pieces).len() as int,
                old_cur.push(c),
            ));
        }
        i = i + 1;
    }
    assert(cs@.take(cs@.len() as int) == cs@);
    let ghost old_pieces = pieces@;
    pieces.push(cur);
    assert(views(pieces@) == views(old_pieces).push(cur@));
    pieces
}

/// A header line split at its first colon: the name, and the value without surrounding
/// spaces and tabs; `None` for a line without a colon.
pub open spec fn header_parts(line: Seq<char>) -> Option<(Seq<char>, Seq<char>)> {
    match first_index(line, ':') {
        Some(i) => Some((line.take(i), trim_ows(line.skip(i + 1)))),
        None => None,
    }
}

/// Header-line law: a header line is split at its first colon, whatever the value holds:
/// for a name without a colon, the line `name:value` gives that name and the value without
/// surrounding spaces and tabs (a value may hold colons, as `Host: localhost:8080` does).
pub proof fn lemma_header_first_colon(name: Seq<char>, value: Seq<char>)
    requires
        forall|t: int| 0 <= t < name.len() ==> name[t] != ':',
    ensures
        header_parts(name + seq![':'] + value) == Some((name, trim_ows(value))),
{
    let line = name + seq![':'] + value;
    assert(line[name.len() as int] == ':');
    assert(forall|t: int| 0 <= t < name.len() ==> line[t] == name[t]);
    assert(is_first(line, ':', name.len() as int));
    lemma_first_unique(line, ':', name.len() as int);
    assert(line.take(name.len() as int) =~= name);
    assert(line.skip(name.len() as int + 1) =~= value);
}

/// Header-line law: a line without a colon is no header.
pub proof fn lemma_header_needs_colon(line: Seq<char>)
    requires
        forall|t: int| 0 <= t < line.len() ==> line[t] != ':',
    ensures
        header_parts(line) is None,
{
    if exists|i: int| is_first(line, ':', i) {
        let i = choose|i: int| is_first(line, ':', i);
        assert(line[i] == ':');
    }
}

/// `k` is the first empty line after the request line.
pub open spec fn is_first_blank(lines: Seq<Seq<char>>, k: int) -> bool {
    &&& 1 <= k < lines.len()
    &&& lines[k].len() == 0
    &&& forall|j: int| 1 <= j < k ==> lines[j].len() > 0
}

/// The index of the line that ends the header lines.
pub open spec fn headers_end(lines: Seq<Seq<char>>) -> int {
    if exists|k: int| is_first_blank(lines, k) {
        choose|k: int| is_first_blank(lines, k)
    } else {
        lines.len() as int
    }
}

proof fn lemma_first_blank_unique(lines: Seq<Seq<char>>, k: int)
    requires
        is_first_blank(lines, k),
    ensures
        headers_end(lines) == k,
{
    let c = choose|c: int| is_first_blank(lines, c);
    if c < k {
        assert(lines[c].len() > 0);
    } else if c > k {
        assert(lines[k].len() > 0);
    }
}

/// The headers given by header lines; `None` when a line has no colon.
pub open spec fn parse_header_lines(lines: Seq<Seq<char>>) -> Option<Seq<(Seq<char>, Seq<char>)>> {
    if forall|i: int| 0 <= i < lines.len() ==> (#[trigger] header_parts(lines[i])) is Some {
        Some(lines.map_values(|l: Seq<char>| header_parts(l).unwrap()))
    } else {
        None
    }
}

/// What `split_request` gives for an input: the request head as it is written, and the
/// length of the head, before any check of the `http` crate.
pub open spec fn spec_split_request(input: Seq<u8>) -> Result<(HeadModel, int), ParseError> {
    match head_end(input) {
        None => Err(ParseError::Unfinished),
        Some(end) => {
            let head = input.take(end);
            if !valid_utf8(head) {
                Err(ParseError::InvalidEncoding)
            } else {
                let lines = split_crlf(decode_utf8(head));
                let parts = split_on(lines[0], ' ');
                if parts.len() < 3 {
                    Err(ParseError::MalformedRequest)
                } else {
                    match spec_parse_version(parts[2]) {
                        None => Err(ParseError::InvalidProtocolVer),
                        Some(version) => match parse_header_lines(
                            lines.subrange(1, headers_end(lines)),
                        ) {
                            None => Err(ParseError::MalformedRequest),
                            Some(headers) => Ok(
                                (
                                    HeadModel { method: parts[0], uri: parts[1], version, headers },
                                    end,
                                ),
                            ),
                        },
                    }
                }
            }
        },
    }
}

fn parse_header_line(line: &[char]) -> (r: Option<(String, String)>)
    ensures
        r matches Some(p) ==> header_parts(line@) == Some((p.0@, p.1@)),
        r is None ==> header_parts(line@) is None,
{
    match find_char(line, ':') {
        None => None,
        Some(i) => {
            assert(i < line@.len());
            assert(line@.len() == line.len());
            let name = sub_chars(line, 0, i);
            let value = trim_ows_from(line, i + 1);
            assert(line@.subrange(0, i as int) == line@.take(i as int));
            Some((string_from_chars(&name), string_from_chars(&value)))
        },
    }
}

/// Splits a request head out of `input` without checking the method, URI or header fields:
/// the head as written and the number of bytes it takes.
pub fn split_request(input: &[u8]) -> (r: Result<(Request<()>, usize), ParseError>)
    ensures
        match (r, spec_split_request(input@)) {
            (Ok((req, n)), Ok((h, m))) => req.head() == h && n == m,
            (Err(e), Err(f)) => e == f,
            _ => false,
        },
{
    let end = match find_head_end(input) {
        None => {
            return Err(ParseError::Unfinished);
        },
        Some(end) => end,
    };
    let mut head: Vec<u8> = Vec::new();
    let mut i: usize = 0;
    while i < end
        invariant
            i <= end,
            head_end(input@) == Some(end as int),
            end <= input@.len(),
            head@ == input@.take(i as int),
        decreases end - i,
    {
        head.push(input[i]);
        assert(input@.take(i + 1) == input@.take(i as int).push(input@[i as int]));
        i = i + 1;
    }
    let text = match utf8_str(&head) {
        None => {
            return Err(ParseError::InvalidEncoding);
        },
        Some(text) => text,
    };
    let cs = str_chars(text);
    let lines = split_lines(&cs);
    proof {
        lemma_split_crlf_nonempty(cs@);
    }
    let parts = split_chars(&lines[0], ' ');
    assert(views(lines@)[0] == lines@[0]@);
    if parts.len() < 3 {
        return Err(ParseError::MalformedRequest);
    }
    let version = match version_of_chars(&parts[2]) {
        None => {
            return Err(ParseError::InvalidProtocolVer);
        },
        Some(v) => v,
    };
    assert(views(parts@)[0] == parts@[0]@);
    assert(views(parts@)[1] == parts@[1]@);
    assert(views(parts@)[2] == parts@[2]@);
    let ghost ls = views(lines@);
    assert(ls == split_crlf(decode_utf8(input@.take(end as int))));
    let mut headers: Vec<(String, String)> = Vec::new();
    let mut k: usize = 1;
    while k < lines.len()
        invariant_except_break
            1 <= k <= lines@.len(),
            ls == views(lines@),
            ls == split_crlf(decode_utf8(input@.take(end as int))),
            valid_utf8(input@.take(end as int)),
            head_end(input@) == Some(end as int),
            parts@.len() >= 3,
            views(parts@) == split_on(ls[0], ' '),
            spec_parse_version(parts@[2]@) == Some(version),
            views(parts@)[2] == parts@[2]@,

            forall|j: int| 1 <= j < k ==> ls[j].len() > 0,
            forall|j: int| 1 <= j < k ==> (#[trigger] header_parts(ls[j])) is Some,
            header_views(headers@) == ls.subrange(1, k as int).map_values(
                |l: Seq<char>| header_parts(l).unwrap(),
            ),
        ensures
            1 <= k <= lines@.len(),
            ls == views(lines@),
            ls == split_crlf(decode_utf8(input@.take(end as int))),
            valid_utf8(input@.take(end as int)),
            head_end(input@) == Some(end as int),
            parts@.len() >= 3,
            views(parts@) == split_on(ls[0], ' '),
            spec_parse_version(parts@[2]@) == Some(version),
            views(parts@)[2] == parts@[2]@,

            headers_end(ls) == k,
            forall|j: int| 1 <= j < k ==> (#[trigger] header_parts(ls[j])) is Some,
            header_views(headers@) == ls.subrange(1, k as int).map_values(
                |l: Seq<char>| header_parts(l).unwrap(),
            ),
        decreases lines@.len() - k,
    {
        if lines[k].len() == 0 {
            proof {
                lemma_first_blank_unique(ls, k as int);
            }
            break;
        }
        let parsed = parse_header_line(&lines[k]);
        assert(ls[k as int] == lines@[k as int]@);
        match parsed {
            None => {
                proof {
                    assert(ls[k as int].len() > 0);
                    if exists|c: int| is_first_blank(ls, c) {
                        let c = choose|c: int| is_first_blank(ls, c);
                        if c <= k {
                            assert(ls[c].len() == 0);
                        }
                    }
                    let sub = ls.subrange(1, headers_end(ls));
                    assert(sub[k - 1] == ls[k as int]);
                    assert(header_parts(sub[k - 1]) is None);
                }
                return Err(ParseError::MalformedRequest);
            },
            Some(p) => {
                let ghost old_h = headers@;
                headers.push(p);
                assert(header_views(headers@) =~= header_views(old_h).push((p.0@, p.1@)));
                assert(ls.subrange(1, k + 1) =~= ls.subrange(1, k as int).push(ls[k as int]));
            },
        }
        k = k + 1;
    }
    proof {
        let sub = ls.subrange(1, headers_end(ls));
        assert forall|i: int| 0 <= i < sub.len() implies (#[trigger] header_parts(sub[i])) is Some by {
            assert(sub[i] == ls[i + 1]);
        }
    }
    let method = string_from_chars(&parts[0]);
    let uri = string_from_chars(&parts[1]);
    Ok((Request { method, uri, version, headers, body: () }, end))
}

/// The `http` crate accepts the method, the URI and every header name and value of a head.
pub open spec fn head_accepted(h: HeadModel) -> bool {
    &&& is_token(encode_utf8(h.method))
    &&& uri_accepts(h.uri)
    &&& forall|i: int| 0 <= i < h.headers.len() ==> header_accepted(#[trigger] h.headers[i])
}

/// The `http` crate accepts a header name and value.
pub open spec fn header_accepted(header: (Seq<char>, Seq<char>)) -> bool {
    is_header_name(encode_utf8(header.0)) && is_field_value(encode_utf8(header.1))
}

/// A head with its header names in the lower case that `http` gives them.
pub open spec fn normalized(h: HeadModel) -> HeadModel {
    HeadModel {
        method: h.method,
        uri: h.uri,
        version: h.version,
        headers: h.headers.map_values(
            |p: (Seq<char>, Seq<char>)| (lower_chars(p.0), p.1),
        ),
    }
}

/// What `take_request` gives for an input.
pub open spec fn spec_take_request(input: Seq<u8>) -> Result<(HeadModel, int), ParseError> {
    match spec_split_request(input) {
        Err(e) => Err(e),
        Ok((h, n)) => if head_accepted(h) {
            Ok((normalized(h), n))
        } else {
            Err(ParseError::MalformedRequest)
        },
    }
}

proof fn lemma_head_end_from_extend(input: Seq<u8>, more: Seq<u8>, from: int)
    requires
        head_end_from(input, from) is Some,
    ensures
        head_end_from(input + more, from) == head_end_from(input, from),
    decreases input.len() - from,
{
    let whole = input + more;
    if from < 0 || from + 4 > input.len() {
    } else {
        assert(whole[from] == input[from] && whole[from + 1] == input[from + 1]);
        assert(whole[from + 2] == input[from + 2] && whole[from + 3] == input[from + 3]);
        if !blank_line_at(input, from) {
            lemma_head_end_from_extend(input, more, from + 1);
        }
    }
}

/// Bytes after a whole request head do not change how the head is taken: of requests sent
/// one after another on a connection, the first is taken as if it stood alone.
pub proof fn lemma_take_request_ignores_rest(input: Seq<u8>, more: Seq<u8>)
    requires
        head_end(input) is Some,
    ensures
        spec_take_request(input + more) == spec_take_request(input),
        head_end(input + more) == head_end(input),
{
    lemma_head_end_from_extend(input, more, 0);
    let end = head_end(input)->Some_0;
    assert(head_end_from(input, 0) == Some(end));
    assert(4 <= end <= input.len()) by {
        lemma_head_end_bound(input, 0);
    }
    assert((input + more).take(end) =~= input.take(end));
}

/// Requests joined on a connection are taken one by one: when `a` holds a whole request,
/// head and body, and `b` follows it, the request taken from `a + b` is the one of `a`, its
/// body is the body in `a`, and what is left is exactly `b`.
pub proof fn lemma_joined_requests(a: Seq<u8>, b: Seq<u8>)
    requires
        spec_take_request(a) matches Ok((h, n)) && n + head_body_length(h) == a.len(),
    ensures
        spec_take_request(a + b) == spec_take_request(a),
        spec_take_request(a) matches Ok((h, n)) && (a + b).subrange(n, n + head_body_length(h))
            == a.skip(n) && (a + b).skip(n + head_body_length(h)) == b,
{
    assert(head_end(a) is Some);
    lemma_take_request_ignores_rest(a, b);
    let (h, n) = spec_take_request(a)->Ok_0;
    lemma_head_end_bound(a, 0);
    assert(n == head_end(a)->Some_0);
    assert((a + b).subrange(n, n + head_body_length(h)) =~= a.skip(n));
    assert((a + b).skip(n + head_body_length(h)) =~= b);
}

proof fn lemma_head_end_bound(input: Seq<u8>, from: int)
    requires
        from >= 0,
    ensures
        head_end_from(input, from) matches Some(e) ==> 4 <= e <= input.len(),
    decreases input.len() - from,
{
    if from < 0 || from + 4 > input.len() {
    } else if !blank_line_at(input, from) {
        lemma_head_end_bound(input, from + 1);
    }
}

/// A header value of the request, when `http` reads it as text.
pub open spec fn text_header<B>(req: &Request<B>, name: Seq<char>) -> Option<Seq<char>> {
    match header_lookup(header_views(req.headers@), name) {
        Some(v) => if is_visible_text(v) {
            Some(v)
        } else {
            None
        },
        None => None,
    }
}

/// A header value of the request, when `http` reads it as text.
pub fn text_header_value<B>(req: &Request<B>, name: &str) -> (r: Option<String>)
    ensures
        match (r, text_header(req, name@)) {
            (Some(t), Some(v)) => t@ == v,
            (None, None) => true,
            _ => false,
        },
{
    match req.header(name) {
        None => None,
        Some(v) => header_value_text(v.as_str()),
    }
}

/// `usize::from_str`: an optional `+`, then one or more decimal digits whose value fits in
/// a `usize`.
pub open spec fn parse_usize(s: Seq<char>) -> Option<nat> {
    let digits = if s.len() > 0 && s[0] == '+' {
        s.drop_first()
    } else {
        s
    };
    if digits.len() > 0 && all_digits(digits) && digits_value(digits) <= usize::MAX {
        Some(digits_value(digits))
    } else {
        None
    }
}

/// Every character is a decimal digit.
pub open spec fn all_digits(s: Seq<char>) -> bool {
    forall|i: int| 0 <= i < s.len() ==> '0' <= #[trigger] s[i] && s[i] <= '9'
}

/// The value of decimal digits.
pub open spec fn digits_value(s: Seq<char>) -> nat
    decreases s.len(),
{
    if s.len() == 0 {
        0
    } else {
        digits_value(s.drop_last()) * 10 + (s.last() as nat - '0' as nat) as nat
    }
}

/// Parses text as `usize::from_str` does.
pub fn parse_usize_text(s: &str) -> (r: Option<usize>)
    ensures
        match (r, parse_usize(s@)) {
            (Some(n), Some(m)) => n == m,
            (None, None) => true,
            _ => false,
        },
{
    let cs = str_chars(s);
    let start: usize = if cs.len() > 0 && cs[0] == '+' {
        1
    } else {
        0
    };
    let ghost digits = if s@.len() > 0 && s@[0] == '+' {
        s@.drop_first()
    } else {
        s@
    };
    assert(cs@.skip(start as int) == digits);
    if start >= cs.len() {
        return None;
    }
    let mut value: usize = 0;
    let mut i: usize = start;
    while i < cs.len()
        invariant
            start <= i <= cs@.len(),
            cs@ == s@,
            digits == (if s@.len() > 0 && s@[0] == '+' {
                s@.drop_first()
            } else {
                s@
            }),
            cs@.skip(start as int) == digits,
            all_digits(cs@.subrange(start as int, i as int)),
            value == digits_value(cs@.subrange(start as int, i as int)),
        decreases cs@.len() - i,
    {
        let c = cs[i];
        let ghost done = cs@.subrange(start as int, i as int);
        assert(cs@.subrange(start as int, i + 1) == done.push(c));
        if c < '0' || c > '9' {
            assert(!all_digits(digits)) by {
                assert(digits[i - start] == c);
            }
            return None;
        }
        let d = (c as u32 - '0' as u32) as usize;
        assert(all_digits(done.push(c)));
        assert(done.push(c).drop_last() == done);
        assert(digits_value(done.push(c)) == digits_value(done) * 10 + d);
        assert(digits.take((i - start + 1) as int) == done.push(c));
        match value.checked_mul(10) {
            None => {
                proof {
                    lemma_digits_prefix_bound(digits, (i - start + 1) as int);
                }
                return None;
            },
            Some(v) => match v.checked_add(d) {
                None => {
                    proof {
                        lemma_digits_prefix_bound(digits, (i - start + 1) as int);
                    }
                    return None;
                },
                Some(w) => {
                    value = w;
                },
            },
        }
        i = i + 1;
    }
    assert(cs@.subrange(start as int, i as int) == digits);
    Some(value)
}

proof fn lemma_digits_prefix_bound(s: Seq<char>, k: int)
    requires
        0 <= k <= s.len(),
    ensures
        all_digits(s) ==> digits_value(s.take(k)) <= digits_value(s),
    decreases s.len() - k,
{
    if k < s.len() && all_digits(s) {
        lemma_digits_prefix_bound(s, k + 1);
        assert(s.take(k + 1).drop_last() == s.take(k));
        assert(all_digits(s.take(k + 1)));
    }
    assert(s.take(s.len() as int) == s);
}

/// The length of the body that follows a request head: its `content-length` header read as
/// text and as a `usize`, or 0 when there is none or it does not read as one.
pub open spec fn declared_body_length<B>(req: &Request<B>) -> nat {
    match text_header(req, "content-length"@) {
        Some(v) => match parse_usize(v) {
            Some(n) => n,
            None => 0,
        },
        None => 0,
    }
}

/// The length of the body that follows a request head.
pub fn body_length<B>(req: &Request<B>) -> (r: usize)
    ensures
        r == declared_body_length(req),
{
    match text_header_value(req, "content-length") {
        None => 0,
        Some(v) => match parse_usize_text(v.as_str()) {
            Some(n) => n,
            None => 0,
        },
    }
}

/// Parses the first request head in `input`: the request, with header names in lower case,
/// and the number of bytes its head takes. The body, if any, starts at that offset.
pub fn take_request(input: &[u8]) -> (r: Result<(Request<()>, usize), ParseError>)
    ensures
        match (r, spec_take_request(input@)) {
            (Ok((req, n)), Ok((h, m))) => req.head() == h && n == m,
            (Err(e), Err(f)) => e == f,
            _ => false,
        },
{
    let (raw, n) = match split_request(input) {
        Err(e) => {
            return Err(e);
        },
        Ok(p) => p,
    };
    let ghost h = raw.head();
    assert(spec_split_request(input@) == Ok::<(HeadModel, int), ParseError>((h, n as int)));
    if !method_is_valid(raw.method.as_str()) {
        return Err(ParseError::MalformedRequest);
    }
    if !uri_is_valid(raw.uri.as_str()) {
        return Err(ParseError::MalformedRequest);
    }
    let mut headers: Vec<(String, String)> = Vec::new();
    let mut i: usize = 0;
    while i < raw.headers.len()
        invariant
            i <= raw.headers@.len(),
            h == raw.head(),
            spec_split_request(input@) == Ok::<(HeadModel, int), ParseError>((h, n as int)),
            is_token(encode_utf8(h.method)),
            uri_accepts(h.uri),
            forall|j: int| 0 <= j < i ==> header_accepted(#[trigger] h.headers[j]),
            header_views(headers@) == normalized(h).headers.take(i as int),
        decreases raw.headers@.len() - i,
    {
        let name = &raw.headers[i].0;
        let value = &raw.headers[i].1;
        assert(h.headers[i as int] == (name@, value@));
        let normal = match header_name_normalized(name.as_str()) {
            None => {
                assert(!header_accepted(h.headers[i as int]));
                assert(!head_accepted(h));
                return Err(ParseError::MalformedRequest);
            },
            Some(n) => n,
        };
        if !header_value_is_valid(value.as_str()) {
            assert(!header_accepted(h.headers[i as int]));
            assert(!head_accepted(h));
            return Err(ParseError::MalformedRequest);
        }
        let ghost old_i = i as int;
        assert(header_accepted(h.headers[old_i]));
        let ghost old_h = headers@;
        headers.push((normal, value.clone()));
        assert(header_views(headers@) =~= header_views(old_h).push((normal@, value@)));
        assert(normalized(h).headers.take(i + 1) =~= normalized(h).headers.take(i as int).push(
            normalized(h).headers[i as int],
        ));
        i = i + 1;
    }
    assert(normalized(h).headers.take(i as int) =~= normalized(h).headers);
    Ok((Request { method: raw.method, uri: raw.uri, version: raw.version, headers, body: () }, n))
}

/// Takes the next request from the bytes read so far on a connection: the request head,
/// where its body starts, and how long its body is.
pub fn take_frame(input: &[u8]) -> (r: Result<(Request<()>, usize, usize), ParseError>)
    ensures
        match (r, spec_take_request(input@)) {
            (Ok((req, n, len)), Ok((h, m))) => req.head() == h && n == m && len == declared_body_length(&req),
            (Err(e), Err(f)) => e == f,
            _ => false,
        },
{
    match take_request(input) {
        Err(e) => Err(e),
        Ok((req, n)) => {
            let len = body_length(&req);
            Ok((req, n, len))
        },
    }
}

/// The length of the body that a request head declares: its `content-length` header read
/// as text and as a `usize`, or 0.
pub open spec fn head_body_length(h: HeadModel) -> nat {
    match header_lookup(h.headers, "content-length"@) {
        Some(v) => if is_visible_text(v) {
            match parse_usize(v) {
                Some(n) => n,
                None => 0,
            }
        } else {
            0
        },
        None => 0,
    }
}

/// Whether the connection closes after this request: unless its `connection` header reads,
/// as text, exactly `keep-alive`.
pub fn should_close<B>(req: &Request<B>) -> (r: bool)
    ensures
        r == (text_header(req, "connection"@) != Some("keep-alive"@)),
{
    match text_header_value(req, "connection") {
        None => true,
        Some(v) => {
            let cs = str_chars(v.as_str());
            let keep = str_chars("keep-alive");
            !chars_eq(&cs, &keep)
        },
    }
}

/// Copies `b[from..to]`.
fn copy_range(b: &Vec<u8>, from: usize, to: usize) -> (r: Vec<u8>)
    requires
        from <= to <= b@.len(),
    ensures
        r@ == b@.subrange(from as int, to as int),
{
    let mut r: Vec<u8> = Vec::new();
    let mut i: usize = from;
    while i < to
        invariant
            from <= i <= to <= b@.len(),
            r@ == b@.subrange(from as int, i as int),
        decreases to - i,
    {
        r.push(b[i]);
        assert(b@.subrange(from as int, i + 1) == b@.subrange(from as int, i as int).push(b@[i as int]));
        i = i + 1;
    }
    r
}

/// Takes the next whole request, head and body, from the front of the bytes read so far on a
/// connection, and leaves the bytes after it, the start of the next request, in `buf`.
/// `None`, with `buf` unchanged, while the head or the body is not complete; a head that
/// does not parse is reported with `buf` unchanged.
pub fn next_request(buf: &mut Vec<u8>) -> (r: Option<Result<(Request<()>, Vec<u8>), ParseError>>)
    ensures
        match spec_take_request(old(buf)@) {
            Err(e) => *final(buf) == *old(buf) && if e == ParseError::Unfinished {
                r is None
            } else {
                r == Some(Err::<(Request<()>, Vec<u8>), ParseError>(e))
            },
            Ok((h, n)) => if n + head_body_length(h) > old(buf)@.len() {
                r is None && *final(buf) == *old(buf)
            } else {
                &&& r matches Some(Ok((req, body)))
                &&& req.head() == h
                &&& body@ == old(buf)@.subrange(n, n + head_body_length(h))
                &&& final(buf)@ == old(buf)@.skip(n + head_body_length(h))
            },
        },
{
    let (req, n, len) = match take_frame(buf.as_slice()) {
        Err(e) => {
            return match e {
                ParseError::Unfinished => None,
                _ => Some(Err(e)),
            };
        },
        Ok(t) => t,
    };
    proof {
        lemma_head_end_bound(buf@, 0);
        assert(declared_body_length(&req) == head_body_length(req.head()));
    }
    if len > buf.len() - n {
        return None;
    }
    let body = copy_range(buf, n, n + len);
    let rest = copy_range(buf, n + len, buf.len());
    let ghost before = buf@;
    *buf = rest;
    assert(buf@ == before.skip(n + len));
    Some(Ok((req, body)))
}

} // verus!
