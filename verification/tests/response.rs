use foxhole::action::{Action, Css, Html, IntoAction, IntoResponse, Js, Plain, Raw};
use foxhole::error::Error;
use foxhole::http_utils::Version;
use foxhole::layers::{date_text, set_date, DefaultResponseGroup, Layer, LayerGroup, SetContentLength, SetDate};
use foxhole::response::{IntoRawBytes, RawResponse, Response, ResponseExt};

fn header_pairs(r: &RawResponse) -> Vec<(String, String)> {
    r.headers().clone()
}

#[test]
fn status_line_text_comes_from_http() {
    assert!(Response::new(200, ()).into_raw_bytes().starts_with(b"HTTP/1.1 200 OK\r\n"));
    assert!(Response::new(404, ()).into_raw_bytes().starts_with(b"HTTP/1.1 404 Not Found\r\n"));
    assert!(Response::new(799, ())
        .into_raw_bytes()
        .starts_with(b"HTTP/1.1 799 <unknown status code>\r\n"));
}

#[test]
fn raw_bytes_of_a_response() {
    let r = Response::new(200, vec![1u8, 2]).header("Content-Type", "text/plain");
    assert_eq!(
        r.into_raw_bytes(),
        b"HTTP/1.1 200 OK\r\ncontent-type: text/plain\r\n\r\n\x01\x02".to_vec()
    );
}

#[test]
fn raw_bytes_keep_version_and_header_order() {
    let r = Response::new(404, String::from("no"))
        .with_version(Version::HTTP_10)
        .header("b", "1")
        .header("a", "2")
        .header("b", "3");
    assert_eq!(
        r.into_raw_bytes(),
        b"HTTP/1.0 404 Not Found\r\nb: 1\r\nb: 3\r\na: 2\r\n\r\nno".to_vec()
    );
}

#[test]
fn bodies_turn_into_bytes() {
    assert_eq!(().into_raw_bytes(), Vec::<u8>::new());
    assert_eq!(vec![7u8].into_raw_bytes(), vec![7u8]);
    assert_eq!(String::from("é").into_raw_bytes(), vec![0xc3, 0xa9]);
}

#[test]
fn raw_response_keeps_the_head() {
    let r = Response::new(201, String::from("ok")).header("x", "y").into_raw_response();
    assert_eq!(r.status(), 201);
    assert_eq!(r.version(), Version::HTTP_11);
    assert_eq!(header_pairs(&r), vec![("x".to_string(), "y".to_string())]);
    assert_eq!(r.body(), &b"ok".to_vec());
}

#[test]
fn contains_header_looks_for_the_name() {
    let r = Response::new(200, ()).header("X-Thing", "1");
    assert!(r.contains_header("x-thing"));
    assert!(!r.contains_header("x-other"));
}

#[test]
fn status_codes_respond_bare() {
    let r = 418u16.response();
    assert_eq!(r.status(), 418);
    assert_eq!(
        header_pairs(&r),
        vec![
            ("content-type".to_string(), "text/plain; charset=UTF-8".to_string()),
            ("content-length".to_string(), "0".to_string())
        ]
    );
    assert!(r.body().is_empty());
}

#[test]
fn content_responses_carry_type_and_length() {
    let cases: Vec<(RawResponse, &str, &[u8])> = vec![
        (Plain("hi".to_string()).response(), "text/plain; charset=utf-8", b"hi"),
        (Html("<p>".to_string()).response(), "text/html; charset=utf-8", b"<p>"),
        (Css("a{}".to_string()).response(), "text/css; charset=utf-8", b"a{}"),
        (Js("f()".to_string()).response(), "text/javascript; charset=utf-8", b"f()"),
        (Raw(vec![0u8; 12]).response(), "application/octet-stream", &[0u8; 12]),
    ];
    for (r, ty, body) in cases {
        assert_eq!(r.status(), 200);
        assert_eq!(
            header_pairs(&r),
            vec![
                ("content-type".to_string(), ty.to_string()),
                ("content-length".to_string(), body.len().to_string())
            ]
        );
        assert_eq!(r.body().as_slice(), body);
    }
}

#[test]
fn errors_answer_with_their_status() {
    assert_eq!(Error::NotAuthorized.response().status(), 401);
    assert_eq!(Error::NotFound.response().status(), 404);
    assert_eq!(Error::MalformedRequest.response().status(), 400);
    assert_eq!(Error::InternalServer.response().status(), 500);
    assert_eq!(Error::QueryNotInCache.response().status(), 500);
    assert_eq!(Error::MissingUrlPart.response().status(), 404);
    assert_eq!(Error::MissingUrlPart.message(), "Missing Required Url Part");
}

#[test]
fn actions_of_return_values() {
    assert!(matches!(().action(), Action::Fail(Error::NotFound)));
    assert!(matches!(None::<u16>.action(), Action::Fail(Error::InternalServer)));
    assert!(matches!(Some(200u16).action(), Action::Respond(_)));
    assert!(matches!(Err::<u16, Error>(Error::NotAuthorized).action(), Action::Respond(_)));
    assert!(matches!(Action::err(Error::InternalServer), Action::Fail(Error::InternalServer)));
}

#[test]
fn content_length_is_added_when_missing() {
    let mut r = Response::new(200, vec![1u8, 2, 3]);
    SetContentLength.execute(&mut r);
    assert_eq!(header_pairs(&r), vec![("content-length".to_string(), "3".to_string())]);
    let mut r = Response::new(200, vec![1u8]).header("content-length", "9");
    SetContentLength.execute(&mut r);
    assert_eq!(header_pairs(&r), vec![("content-length".to_string(), "9".to_string())]);
}

#[test]
fn date_is_set_once() {
    let mut r = Response::new(200, Vec::new()).header("date", "old").header("x", "1");
    SetDate.execute(&mut r);
    let hs = header_pairs(&r);
    assert_eq!(hs.len(), 2);
    assert_eq!(hs[0].0, "date");
    assert_ne!(hs[0].1, "old");
    assert!(hs[0].1.ends_with("+0000"));
    assert_eq!(hs[1], ("x".to_string(), "1".to_string()));
}

#[test]
fn default_group_sets_content_length() {
    let group = DefaultResponseGroup::new();
    let mut r = Response::new(200, vec![0u8; 5]);
    group.execute(&mut r);
    assert_eq!(header_pairs(&r), vec![("content-length".to_string(), "5".to_string())]);
}

#[test]
fn layer_groups_run_in_order() {
    let mut group: LayerGroup<RawResponse> = LayerGroup::new();
    group.add_layer(SetContentLength);
    group.add_layer(());
    let mut r = Response::new(200, vec![0u8; 2]);
    group.execute(&mut r);
    assert!(r.contains_header("content-length"));
}

#[test]
fn date_text_writes_rfc2822() {
    assert_eq!(date_text(0, 0), Some("Thu, 1 Jan 1970 00:00:00 +0000".to_string()));
    assert_eq!(date_text(1057056757, 0), Some("Tue, 1 Jul 2003 10:52:37 +0000".to_string()));
    assert_eq!(date_text(u64::MAX, 0), None);
    assert_eq!(date_text(253402300800, 0), None);
}

#[test]
fn set_date_sets_or_keeps() {
    let mut r = Response::new(200, Vec::new()).header("x", "1");
    set_date(&mut r, None);
    assert_eq!(header_pairs(&r), vec![("x".to_string(), "1".to_string())]);
    set_date(&mut r, Some("Thu, 1 Jan 1970 00:00:00 +0000".to_string()));
    assert_eq!(
        header_pairs(&r),
        vec![
            ("x".to_string(), "1".to_string()),
            ("date".to_string(), "Thu, 1 Jan 1970 00:00:00 +0000".to_string())
        ]
    );
}

#[test]
fn default_group_with_date_sets_both() {
    let group = DefaultResponseGroup::with_date();
    let mut r = Response::new(200, vec![0u8; 5]);
    group.execute(&mut r);
    let hs = header_pairs(&r);
    assert_eq!(hs[0], ("content-length".to_string(), "5".to_string()));
    assert_eq!(hs[1].0, "date");
}
