use foxhole::http_utils::{body_length, next_request, parse_usize_text, take_request, ParseError, Version, VersionExt};

#[test]
fn test_joined_request() {
    let data = String::from(
        "POST / HTTP/1.0\r\nContent-Length: 0\r\n\r\nPOST / HTTP/1.0\r\nContent-Length: 0\r\n\r\nPOST / HTTP/1.0\r\nContent-Length: 0\r\n\r\n",
    );

    let first = take_request(data.as_bytes()).unwrap();
    assert_eq!(first.1, 38);

    let second = take_request(&data.as_bytes()[first.1..]).unwrap();
    assert_eq!(second.1, 38);

    let third = take_request(&data.as_bytes()[first.1 + second.1..]).unwrap();
    assert_eq!(third.1, 38);
}

#[test]
fn test_request() {
    let data = String::from("POST / HTTP/1.0\r\nContent-Length: 1\r\n\r\n0");

    assert!(take_request(data.as_bytes()).is_ok());
}

#[test]
fn test_req_parsing() {
    let bytes = b"GET / HTTP/1.1\r\nHost: localhost\r\n\r\n";

    let req = take_request(bytes);

    assert!(req.is_ok());
    let (req, _) = req.unwrap();
    assert_eq!(req.method, "GET");
    assert_eq!(req.uri, "/");
    assert_eq!(req.version, Version::HTTP_11);
    assert_eq!(req.headers.len(), 1);
    assert_eq!(req.header("Host"), Some(&"localhost".to_string()));
}

#[test]
fn head_length_counts_the_blank_line() {
    let (req, n) = take_request(b"GET /a?b=c HTTP/1.1\r\nX-One: 1\r\nX-Two:  two \r\n\r\nbody").unwrap();
    assert_eq!(n, 47);
    assert_eq!(req.uri, "/a?b=c");
    assert_eq!(
        req.headers,
        vec![
            ("x-one".to_string(), "1".to_string()),
            ("x-two".to_string(), "two".to_string())
        ]
    );
}

#[test]
fn unfinished_head_is_reported() {
    assert_eq!(
        take_request(b"GET / HTTP/1.1\r\nHost: a\r\n").err(),
        Some(ParseError::Unfinished)
    );
}

#[test]
fn short_request_line_is_malformed() {
    assert_eq!(
        take_request(b"GET /\r\n\r\n").err(),
        Some(ParseError::MalformedRequest)
    );
}

#[test]
fn header_without_colon_is_malformed() {
    assert_eq!(
        take_request(b"GET / HTTP/1.1\r\nBroken\r\n\r\n").err(),
        Some(ParseError::MalformedRequest)
    );
}

#[test]
fn unknown_version_is_reported() {
    assert_eq!(
        take_request(b"GET / HTTP/4.0\r\n\r\n").err(),
        Some(ParseError::InvalidProtocolVer)
    );
}

#[test]
fn invalid_utf8_head_is_reported() {
    assert_eq!(
        take_request(b"GET /\xff HTTP/1.1\r\n\r\n").err(),
        Some(ParseError::InvalidEncoding)
    );
}

#[test]
fn method_with_separator_is_refused_by_http() {
    assert_eq!(
        take_request(b"G(T / HTTP/1.1\r\n\r\n").err(),
        Some(ParseError::MalformedRequest)
    );
}

#[test]
fn header_name_with_space_is_refused_by_http() {
    assert_eq!(
        take_request(b"GET / HTTP/1.1\r\nBad Name: x\r\n\r\n").err(),
        Some(ParseError::MalformedRequest)
    );
}

#[test]
fn versions_parse_and_print() {
    assert_eq!(Version::parse_version("HTTP/0.9"), Ok(Version::HTTP_09));
    assert_eq!(Version::parse_version("HTTP/1.0"), Ok(Version::HTTP_10));
    assert_eq!(Version::parse_version("HTTP/1.1"), Ok(Version::HTTP_11));
    assert_eq!(Version::parse_version("HTTP/2.0"), Ok(Version::HTTP_2));
    assert_eq!(Version::parse_version("HTTP/3.0"), Ok(Version::HTTP_3));
    assert_eq!(Version::parse_version("HTTP/1.2"), Err(ParseError::InvalidProtocolVer));
    assert_eq!(VersionExt::to_string(&Version::HTTP_11), "HTTP/1.1");
    assert_eq!(VersionExt::to_string(&Version::HTTP_2), "HTTP/2.0");
}

#[test]
fn header_lookup_ignores_case_and_takes_the_first() {
    let (req, _) = take_request(b"GET / HTTP/1.1\r\nA: 1\r\na: 2\r\n\r\n").unwrap();
    assert_eq!(req.header("A"), Some(&"1".to_string()));
    assert_eq!(req.header("b"), None);
}

#[test]
fn parse_error_messages() {
    assert_eq!(ParseError::Unfinished.message(), "unfinished");
    assert_eq!(ParseError::InvalidProtocolVer.message(), "Invalid Protocol");
}

#[test]
fn body_length_reads_content_length() {
    let (req, _) = take_request(b"POST / HTTP/1.1\r\nContent-Length: 12\r\n\r\n").unwrap();
    assert_eq!(body_length(&req), 12);
    let (req, _) = take_request(b"POST / HTTP/1.1\r\nContent-Length: +7\r\n\r\n").unwrap();
    assert_eq!(body_length(&req), 7);
    let (req, _) = take_request(b"POST / HTTP/1.1\r\nContent-Length: x\r\n\r\n").unwrap();
    assert_eq!(body_length(&req), 0);
    let (req, _) = take_request(b"POST / HTTP/1.1\r\n\r\n").unwrap();
    assert_eq!(body_length(&req), 0);
}

#[test]
fn usize_text_parses_like_from_str() {
    for s in ["0", "42", "+5", "", "+", "-1", "1 ", "99999999999999999999999", "007"] {
        assert_eq!(parse_usize_text(s), s.parse::<usize>().ok(), "{s:?}");
    }
}

#[test]
fn bytes_after_a_head_do_not_change_it() {
    let head = b"GET /x HTTP/1.1\r\nA: b\r\n\r\n".to_vec();
    let mut longer = head.clone();
    longer.extend_from_slice(b"garbage\r\n\r\nmore");
    let (a, n) = take_request(&head).unwrap();
    let (b, m) = take_request(&longer).unwrap();
    assert_eq!(n, m);
    assert_eq!((a.method, a.uri, a.version, a.headers), (b.method, b.uri, b.version, b.headers));
}

#[test]
fn http_checks_refuse_what_http_refuses() {
    assert!(take_request(b"PATCH /a?b HTTP/1.1\r\nA: text/plain\tx\r\n\r\n").is_ok());
    assert_eq!(
        take_request(b" /a HTTP/1.1\r\n\r\n").err(),
        Some(ParseError::MalformedRequest)
    );
    assert_eq!(
        take_request(b"GET ht\x7ftp HTTP/1.1\r\n\r\n").err(),
        Some(ParseError::MalformedRequest)
    );
    assert_eq!(
        take_request(b"GET / HTTP/1.1\r\nA: b\x01c\r\n\r\n").err(),
        Some(ParseError::MalformedRequest)
    );
}

#[test]
fn frames_give_head_length_and_body_length() {
    let (req, n, len) = foxhole::http_utils::take_frame(b"POST /a HTTP/1.1\r\nContent-Length: 3\r\n\r\nabc").unwrap();
    assert_eq!((req.uri.as_str(), n, len), ("/a", 39, 3));
    assert!(foxhole::http_utils::take_frame(b"POST /a HTTP/1.1\r\n").is_err());
}

#[test]
fn next_request_takes_joined_requests_one_by_one() {
    let mut buf = b"POST /a HTTP/1.1\r\nContent-Length: 3\r\n\r\nabcGET /b HTTP/1.1\r\n\r\n".to_vec();
    let (first, body) = next_request(&mut buf).unwrap().unwrap();
    assert_eq!(first.uri, "/a");
    assert_eq!(body, b"abc".to_vec());
    assert_eq!(buf, b"GET /b HTTP/1.1\r\n\r\n".to_vec());
    let (second, body) = next_request(&mut buf).unwrap().unwrap();
    assert_eq!(second.uri, "/b");
    assert!(body.is_empty());
    assert!(buf.is_empty());
    assert!(next_request(&mut buf).is_none());
}

#[test]
fn next_request_waits_for_the_whole_body() {
    let mut buf = b"POST / HTTP/1.1\r\nContent-Length: 5\r\n\r\nab".to_vec();
    let before = buf.clone();
    assert!(next_request(&mut buf).is_none());
    assert_eq!(buf, before);
    buf.extend_from_slice(b"cdeX");
    let (_, body) = next_request(&mut buf).unwrap().unwrap();
    assert_eq!(body, b"abcde".to_vec());
    assert_eq!(buf, b"X".to_vec());
}

#[test]
fn next_request_waits_for_the_whole_head() {
    let mut buf = b"GET / HTTP/1.1\r\nHost: a\r\n".to_vec();
    let before = buf.clone();
    assert!(next_request(&mut buf).is_none());
    assert_eq!(buf, before);
}

#[test]
fn next_request_reports_a_malformed_head() {
    let mut buf = b"GET /\r\n\r\n".to_vec();
    let before = buf.clone();
    assert_eq!(next_request(&mut buf).unwrap().err(), Some(ParseError::MalformedRequest));
    assert_eq!(buf, before);
}

#[test]
fn connections_close_unless_kept_alive() {
    let (keep, _) = take_request(b"GET / HTTP/1.1\r\nConnection: keep-alive\r\n\r\n").unwrap();
    assert!(!foxhole::http_utils::should_close(&keep));
    let (close, _) = take_request(b"GET / HTTP/1.1\r\nConnection: close\r\n\r\n").unwrap();
    assert!(foxhole::http_utils::should_close(&close));
    let (none, _) = take_request(b"GET / HTTP/1.1\r\n\r\n").unwrap();
    assert!(foxhole::http_utils::should_close(&none));
}
