use std::collections::VecDeque;

use foxhole::action::Plain;
use foxhole::error::Error;
use foxhole::handler::Method;
use foxhole::http_utils::{take_request, Request};
use foxhole::resolve::{
    ArgMap, Endpoint, Get, HeaderMap, Post, RequestState, Resolve, ResolveGuard, Url, UrlCollect,
    UrlPart,
};
use foxhole::routing::Router;
use foxhole::str_map::StrMap;
use foxhole::systems::{DynSystem, IntoDynSystem};
use foxhole::tasks::{handle_request, Reply};

fn parse(text: &str) -> Request<Vec<u8>> {
    let (head, n) = take_request(text.as_bytes()).unwrap();
    Request {
        method: head.method,
        uri: head.uri,
        version: head.version,
        headers: head.headers,
        body: text.as_bytes()[n..].to_vec(),
    }
}

fn hello() -> Plain {
    Plain("hello".to_string())
}

fn user(part: UrlPart) -> Plain {
    Plain(part.0)
}

fn pair(a: UrlPart, b: UrlPart) -> Plain {
    Plain(format!("{}-{}", a.0, b.0))
}

fn rest(all: UrlCollect) -> Plain {
    Plain(all.0.join(","))
}

fn args(a: ArgMap) -> Plain {
    Plain(a.0.get(&"x".to_string()).cloned().unwrap_or_default())
}

fn body(text: String) -> Plain {
    Plain(text)
}

fn path(u: Url) -> Plain {
    Plain(u.0)
}

fn nothing() {}

fn teapot() -> u16 {
    418
}

fn status(reply: Reply) -> (bool, u16, Vec<u8>) {
    match reply {
        Reply::Direct(r) => (false, r.status(), r.body().clone()),
        Reply::Layered(r) => (true, r.status(), r.body().clone()),
        Reply::Upgrade(r, _) => (false, r.status(), r.body().clone()),
    }
}

fn app() -> Router<DynSystem<()>> {
    Router::new()
        .add_route("/", Method::Get(DynSystem::new(hello)))
        .add_route("/user/:id", Method::Get(DynSystem::new(user)))
        .add_route("/pair/:a/:b", Method::Get(DynSystem::new(pair)))
        .add_route("/files/*", Method::Get(DynSystem::new(rest)))
        .add_route("/args", Method::Get(DynSystem::new(args)))
        .add_route("/echo", Method::Post(DynSystem::new(body)))
        .add_route("/path", Method::Get(DynSystem::new(path)))
        .add_route("/none", Method::Get(teapot.into_dyn_system()))
}

#[test]
fn routes_to_the_system_of_the_method() {
    let r = status(handle_request(&app(), (), parse("GET / HTTP/1.1\r\n\r\n")));
    assert_eq!(r, (true, 200, b"hello".to_vec()));
}

#[test]
fn url_parts_reach_the_system_in_order() {
    let r = status(handle_request(&app(), (), parse("GET /user/ada HTTP/1.1\r\n\r\n")));
    assert_eq!(r, (true, 200, b"ada".to_vec()));
    let r = status(handle_request(&app(), (), parse("GET /pair/x/y HTTP/1.1\r\n\r\n")));
    assert_eq!(r, (true, 200, b"x-y".to_vec()));
    let r = status(handle_request(&app(), (), parse("GET /files/a/b/c HTTP/1.1\r\n\r\n")));
    assert_eq!(r, (true, 200, b"a,b,c".to_vec()));
}

#[test]
fn query_arguments_are_decoded() {
    let r = status(handle_request(&app(), (), parse("GET /args?x=a%20b&y=1 HTTP/1.1\r\n\r\n")));
    assert_eq!(r, (true, 200, b"a b".to_vec()));
}

#[test]
fn bad_query_is_answered_directly() {
    let r = status(handle_request(&app(), (), parse("GET /args?x=%zz HTTP/1.1\r\n\r\n")));
    assert_eq!(r.0, false);
    assert_eq!(r.1, 400);
}

#[test]
fn unknown_route_and_method_fall_back() {
    let r = status(handle_request(&app(), (), parse("GET /nowhere HTTP/1.1\r\n\r\n")));
    assert_eq!((r.0, r.1), (true, 404));
    let r = status(handle_request(&app(), (), parse("POST / HTTP/1.1\r\n\r\n")));
    assert_eq!((r.0, r.1), (true, 404));
}

#[test]
fn fallback_system_answers() {
    let router = app().fallback(DynSystem::new(teapot));
    let r = status(handle_request(&router, (), parse("GET /nowhere HTTP/1.1\r\n\r\n")));
    assert_eq!((r.0, r.1), (true, 418));
    let router = app().fallback(DynSystem::new(nothing));
    let r = status(handle_request(&router, (), parse("GET /nowhere HTTP/1.1\r\n\r\n")));
    assert_eq!((r.0, r.1), (true, 500));
}

#[test]
fn bodies_and_paths_resolve() {
    let r = status(handle_request(&app(), (), parse("POST /echo HTTP/1.1\r\nContent-Length: 2\r\n\r\nhi")));
    assert_eq!(r, (true, 200, b"hi".to_vec()));
    let r = status(handle_request(&app(), (), parse("GET /path?q=1 HTTP/1.1\r\n\r\n")));
    assert_eq!(r, (true, 200, b"/path".to_vec()));
    let r = status(handle_request(&app(), (), parse("GET /none HTTP/1.1\r\n\r\n")));
    assert_eq!((r.0, r.1), (true, 418));
}

fn state(text: &str) -> RequestState<()> {
    RequestState { cache: (), request: parse(text), query: StrMap::new() }
}

fn caps(parts: &[&str]) -> VecDeque<String> {
    parts.iter().map(|s| s.to_string()).collect()
}

#[test]
fn url_part_fails_when_none_is_left() {
    let ctx = state("GET / HTTP/1.1\r\n\r\n");
    let mut c = caps(&["a"]);
    assert!(matches!(UrlPart::resolve(&ctx, &mut c), ResolveGuard::Value(UrlPart(s)) if s == "a"));
    assert!(matches!(UrlPart::resolve(&ctx, &mut c), ResolveGuard::Fail(Error::MissingUrlPart)));
}

#[test]
fn method_and_endpoint_guards() {
    let ctx = state("GET / HTTP/1.1\r\n\r\n");
    let mut c = caps(&[]);
    assert!(matches!(Get::resolve(&ctx, &mut c), ResolveGuard::Value(Get)));
    assert!(matches!(Post::resolve(&ctx, &mut c), ResolveGuard::Fail(Error::NotFound)));
    assert!(matches!(Endpoint::resolve(&ctx, &mut c), ResolveGuard::Value(Endpoint)));
    let mut c = caps(&["more"]);
    assert!(matches!(Endpoint::resolve(&ctx, &mut c), ResolveGuard::Fail(Error::NotFound)));
    let mut c = caps(&[""]);
    assert!(matches!(Endpoint::resolve(&ctx, &mut c), ResolveGuard::Value(Endpoint)));
}

#[test]
fn optional_and_header_parameters() {
    let ctx = state("GET / HTTP/1.1\r\nX-A: 1\r\n\r\n");
    let mut c = caps(&[]);
    assert!(matches!(Option::<UrlPart>::resolve(&ctx, &mut c), ResolveGuard::Value(None)));
    match HeaderMap::resolve(&ctx, &mut c) {
        ResolveGuard::Value(h) => assert_eq!(h.0, vec![("x-a".to_string(), "1".to_string())]),
        _ => panic!("headers always resolve"),
    }
    let bad = RequestState { cache: (), request: parse("POST / HTTP/1.1\r\n\r\n\u{0}"), query: StrMap::new() };
    let mut with_invalid = bad;
    with_invalid.request.body = vec![0xff];
    assert!(matches!(String::resolve(&with_invalid, &mut c), ResolveGuard::Fail(Error::MalformedRequest)));
}

#[test]
fn guards_map_and_fail() {
    let g: ResolveGuard<u8> = ResolveGuard::Value(2);
    assert!(matches!(g.map(|v| v * 3), ResolveGuard::Value(6)));
    let g: ResolveGuard<u8> = ResolveGuard::err(Error::NotAuthorized);
    assert!(matches!(g.map(|v| v + 1), ResolveGuard::Fail(Error::NotAuthorized)));
}

fn auth(h: HeaderMap) -> Result<(), u16> {
    if h.0.iter().any(|(name, _)| name == "authorization") {
        Ok(())
    } else {
        Err(401)
    }
}

fn page(part: UrlPart) -> Plain {
    Plain(format!("page {}", part.0))
}

fn scope() -> foxhole::scope::Scope<DynSystem<()>> {
    foxhole::scope::Scope::new(vec![DynSystem::new(auth)])
        .route("page".to_string(), foxhole::scope::Scope::new(vec![DynSystem::new(page)]))
}

#[test]
fn scope_walk_stops_at_the_first_response() {
    use_scope("GET /page/7 HTTP/1.1\r\n\r\n", (true, 401, Vec::new()));
    use_scope(
        "GET /page/7 HTTP/1.1\r\nAuthorization: yes\r\n\r\n",
        (true, 200, b"page 7".to_vec()),
    );
}

#[test]
fn scope_walk_without_a_response_is_404() {
    let r = status(foxhole::scope::handle_scope_request(
        &scope(),
        (),
        parse("GET /other HTTP/1.1\r\nAuthorization: yes\r\n\r\n"),
    ));
    assert_eq!((r.0, r.1), (false, 404));
}

fn use_scope(text: &str, expected: (bool, u16, Vec<u8>)) {
    let r = status(foxhole::scope::handle_scope_request(&scope(), (), parse(text)));
    assert_eq!(r, expected);
}

fn posted_part(part: UrlPart, _post: Post) -> Plain {
    Plain(format!("posted {}", part.0))
}

#[test]
fn url_parts_taken_by_a_system_advance_the_walk() {
    let scope = foxhole::scope::Scope::new(vec![DynSystem::new(posted_part)])
        .route("b".to_string(), foxhole::scope::Scope::new(vec![DynSystem::new(page)]));
    let r = status(foxhole::scope::handle_scope_request(&scope, (), parse("GET /a/b/9 HTTP/1.1\r\n\r\n")));
    assert_eq!(r, (true, 200, b"page 9".to_vec()));
    let r = status(foxhole::scope::handle_scope_request(&scope, (), parse("POST /a/b/9 HTTP/1.1\r\n\r\n")));
    assert_eq!(r, (true, 200, b"posted a".to_vec()));
}

struct Teapot;

impl foxhole::error::IntoResponseError for Teapot {
    fn box_response(&self) -> foxhole::response::RawResponse {
        foxhole::action::IntoResponse::response(418u16)
    }
}

struct Refused;

impl foxhole::action::IntoAction for Refused {
    fn action(self) -> foxhole::action::Action {
        foxhole::action::Action::AppError(Box::new(Teapot))
    }
}

fn refuse() -> Refused {
    Refused
}

#[test]
fn application_errors_answer_with_their_response() {
    let router = Router::new().add_route("/no", Method::Get(DynSystem::new(refuse)));
    let r = status(handle_request(&router, (), parse("GET /no HTTP/1.1\r\n\r\n")));
    assert_eq!((r.0, r.1), (true, 418));
}
