use foxhole::tasks::{handle_request, Reply};
use foxhole::http_utils::{Request, Version};
use foxhole::resolve::{RequestState, Resolve, ResolveGuard};
use foxhole::routing::Captures;
use foxhole::str_map::StrMap;
use foxhole::websocket::{
    encode_frame, encode_key, length_header, respond_handshake, Frame, FrameError, FrameReader,
    Upgrade,
};

fn read_frame(bytes: &[u8]) -> (Result<Frame, FrameError>, usize) {
    let mut reader = FrameReader::new();
    let mut pos = 0;
    loop {
        let n = reader.wanted() as usize;
        let piece = &bytes[pos..pos + n];
        pos += n;
        if let Some(r) = reader.feed(piece) {
            return (r, pos);
        }
    }
}

fn request(headers: &[(&str, &str)]) -> Request<Vec<u8>> {
    Request {
        method: "GET".to_string(),
        uri: "/".to_string(),
        version: Version::HTTP_11,
        headers: headers.iter().map(|(a, b)| (a.to_string(), b.to_string())).collect(),
        body: Vec::new(),
    }
}

#[test]
fn accept_key_of_the_rfc_example() {
    assert_eq!(encode_key("dGhlIHNhbXBsZSBub25jZQ=="), "s3pPLMBiTxaQ9kYGzzhZRbK+xOo=");
}

#[test]
fn reads_a_masked_text_frame() {
    let bytes = [0x81, 0x85, 0x37, 0xfa, 0x21, 0x3d, 0x7f, 0x9f, 0x4d, 0x51, 0x58];
    let (r, used) = read_frame(&bytes);
    assert_eq!(used, bytes.len());
    assert!(matches!(r, Ok(Frame::Text(s)) if s == "Hello"));
}

#[test]
fn reads_an_unmasked_text_frame() {
    let (r, _) = read_frame(&[0x81, 0x05, 0x48, 0x65, 0x6c, 0x6c, 0x6f]);
    assert!(matches!(r, Ok(Frame::Text(s)) if s == "Hello"));
}

#[test]
fn reads_sixteen_and_sixty_four_bit_lengths() {
    let mut bytes = vec![0x82, 0x7e, 0x01, 0x00];
    bytes.extend(std::iter::repeat(7u8).take(256));
    let (r, used) = read_frame(&bytes);
    assert_eq!(used, 260);
    assert!(matches!(r, Ok(Frame::Binary(b)) if b.len() == 256 && b[255] == 7));

    let mut bytes = vec![0x82, 0x7f, 0, 0, 0, 0, 0, 1, 0, 0];
    bytes.extend(std::iter::repeat(1u8).take(65536));
    let (r, used) = read_frame(&bytes);
    assert_eq!(used, 65546);
    assert!(matches!(r, Ok(Frame::Binary(b)) if b.len() == 65536));
}

#[test]
fn reads_close_frames() {
    let (r, _) = read_frame(&[0x88, 0x02, 0x03, 0xe8]);
    assert!(matches!(r, Ok(Frame::Close(Some(1000)))));
    let (r, _) = read_frame(&[0x88, 0x00]);
    assert!(matches!(r, Ok(Frame::Close(None))));
}

#[test]
fn refuses_other_opcodes_and_bad_text() {
    let (r, _) = read_frame(&[0x89, 0x00]);
    assert!(matches!(r, Err(FrameError::Unsupported)));
    let (r, _) = read_frame(&[0x81, 0x01, 0xff]);
    assert!(matches!(r, Err(FrameError::InvalidUtf8)));
    assert_eq!(FrameError::InvalidUtf8.message(), "Invalid UTF-8 in text frame");
}

#[test]
fn writes_frames() {
    assert_eq!(
        encode_frame(Frame::Text("Hello".to_string())),
        (vec![0x81, 5, b'H', b'e', b'l', b'l', b'o'], None)
    );
    assert_eq!(encode_frame(Frame::Binary(vec![1, 2])), (vec![0x82, 2, 1, 2], None));
    assert_eq!(encode_frame(Frame::Close(Some(1000))), (vec![0x88, 2, 0x03, 0xe8], None));
    assert_eq!(encode_frame(Frame::Close(None)), (vec![0x88, 0], None));
}

#[test]
fn medium_lengths_are_written_in_two_bytes() {
    assert_eq!(length_header(300), Ok(vec![126u8, 1, 44]));
    assert_eq!(length_header(200), Ok(vec![126u8, 0, 200]));
    assert_eq!(length_header(65535), Ok(vec![126u8, 255, 255]));
    assert_eq!(length_header(125), Ok(vec![125]));
    assert_eq!(length_header(65536), Err(FrameError::TooLong));
}

#[test]
fn long_payloads_stop_after_the_first_byte() {
    assert_eq!(
        encode_frame(Frame::Binary(vec![0; 70000])),
        (vec![0x82], Some(FrameError::TooLong))
    );
}

#[test]
fn frames_read_back_as_written() {
    for frame in [
        Frame::Text("héllo".to_string()),
        Frame::Binary(vec![9; 125]),
        Frame::Binary(vec![8; 200]),
        Frame::Binary(vec![7; 65535]),
        Frame::Text("x".repeat(300)),
        Frame::Close(Some(4000)),
        Frame::Close(None),
    ] {
        let expected = format!("{:?}", frame);
        let (bytes, err) = encode_frame(frame);
        assert!(err.is_none());
        let (r, used) = read_frame(&bytes);
        assert_eq!(used, bytes.len());
        assert_eq!(format!("{:?}", r.unwrap()), expected);
    }
}

#[test]
fn handshake_accepts_version_13() {
    let r = respond_handshake(&request(&[
        ("Sec-WebSocket-Version", "8, 13"),
        ("Sec-WebSocket-Key", "dGhlIHNhbXBsZSBub25jZQ=="),
    ]));
    assert_eq!(r.status(), 101);
    assert_eq!(
        r.headers().clone(),
        vec![
            ("sec-websocket-accept".to_string(), "s3pPLMBiTxaQ9kYGzzhZRbK+xOo=".to_string()),
            ("upgrade".to_string(), "websocket".to_string()),
            ("connection".to_string(), "upgrade".to_string())
        ]
    );
}

#[test]
fn handshake_refuses_other_versions_and_missing_keys() {
    let r = respond_handshake(&request(&[("sec-websocket-version", "8")]));
    assert_eq!(r.status(), 426);
    assert_eq!(
        r.headers().clone(),
        vec![("sec-websocket-version".to_string(), "13".to_string())]
    );
    let r = respond_handshake(&request(&[]));
    assert_eq!(r.status(), 426);
    let r = respond_handshake(&request(&[("sec-websocket-version", " 13 ")]));
    assert_eq!(r.status(), 400);
}

#[test]
fn upgrade_guards_on_the_connection_header() {
    let ctx = RequestState {
        cache: (),
        request: request(&[("Connection", "Upgrade")]),
        query: StrMap::new(),
    };
    let mut caps = Captures::new();
    assert!(matches!(Upgrade::resolve(&ctx, &mut caps), ResolveGuard::Value(_)));
    let ctx = RequestState { cache: (), request: request(&[("connection", "close")]), query: StrMap::new() };
    assert!(matches!(Upgrade::resolve(&ctx, &mut caps), ResolveGuard::Fail(_)));
    let handled = Upgrade.handle(5u8);
    assert_eq!(handled.0, 5);
}

#[test]
fn header_values_that_are_not_visible_ascii_do_not_read_as_text() {
    let ctx = RequestState {
        cache: (),
        request: request(&[("connection", "upgr\u{e4}de")]),
        query: StrMap::new(),
    };
    let mut caps = Captures::new();
    assert!(matches!(Upgrade::resolve(&ctx, &mut caps), ResolveGuard::Fail(_)));
}

struct Recorder {
    written: std::sync::Arc<std::sync::Mutex<Vec<u8>>>,
}

impl foxhole::websocket::ByteStream for Recorder {
    fn read_exact_bytes(&mut self, _n: usize) -> Option<Vec<u8>> {
        None
    }

    fn write_all_bytes(&mut self, bytes: &[u8]) -> bool {
        self.written.lock().unwrap().extend_from_slice(bytes);
        true
    }

    fn set_timeout_millis(&mut self, _millis: Option<u64>) -> bool {
        true
    }
}

fn greet(mut conn: foxhole::websocket::WebsocketConnection) {
    let (bytes, _) = encode_frame(Frame::Text("hi".to_string()));
    conn.stream.write_all_bytes(&bytes);
}

fn open(u: Upgrade) -> foxhole::websocket::Websocket<fn(foxhole::websocket::WebsocketConnection)> {
    u.handle(greet as fn(foxhole::websocket::WebsocketConnection))
}

fn upgrade_router() -> foxhole::routing::Router<foxhole::systems::DynSystem<()>> {
    foxhole::routing::Router::new().add_route(
        "/ws",
        foxhole::handler::Method::Get(foxhole::systems::DynSystem::new(open)),
    )
}

fn ws_request(headers: &[(&str, &str)]) -> Request<Vec<u8>> {
    let mut r = request(headers);
    r.uri = "/ws".to_string();
    r
}

#[test]
fn a_websocket_answers_the_handshake_and_hands_over_the_stream() {
    let req = ws_request(&[
        ("Connection", "Upgrade"),
        ("Sec-WebSocket-Version", "13"),
        ("Sec-WebSocket-Key", "dGhlIHNhbXBsZSBub25jZQ=="),
    ]);
    match handle_request(&upgrade_router(), (), req) {
        Reply::Upgrade(r, handler) => {
            assert_eq!(r.status(), 101);
            let written = std::sync::Arc::new(std::sync::Mutex::new(Vec::new()));
            let stream = Box::new(Recorder { written: written.clone() });
            handler.take_over(foxhole::websocket::WebsocketConnection::new(stream));
            assert_eq!(*written.lock().unwrap(), vec![0x81, 2, b'h', b'i']);
        }
        _ => panic!("expected an upgrade"),
    }
}

#[test]
fn a_failed_handshake_is_answered_directly() {
    let req = ws_request(&[("Connection", "Upgrade"), ("Sec-WebSocket-Version", "8")]);
    match handle_request(&upgrade_router(), (), req) {
        Reply::Direct(r) => assert_eq!(r.status(), 426),
        _ => panic!("expected a direct answer"),
    }
}

#[test]
fn only_upgrade_requests_ask_for_one() {
    assert!(foxhole::websocket::asks_for_upgrade(&request(&[("connection", "UPGRADE")])));
    assert!(!foxhole::websocket::asks_for_upgrade(&request(&[("connection", "keep-alive")])));
    assert!(!foxhole::websocket::asks_for_upgrade(&request(&[])));
}
