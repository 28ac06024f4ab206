use foxhole::handler::{Handler, Method};
use foxhole::routing::Router;
use foxhole::scope::Scope;

fn get(h: &Handler<u32>) -> Option<u32> {
    h.get(&"GET".to_string()).copied()
}

#[test]
fn literal_routes_are_found() {
    let router = Router::new()
        .add_route("/", Method::Get(1u32))
        .add_route("/a/b", Method::Get(2u32));
    let (h, caps) = router.route("/").unwrap();
    assert_eq!(get(h), Some(1));
    assert!(caps.is_empty());
    let (h, caps) = router.route("/a/b").unwrap();
    assert_eq!(get(h), Some(2));
    assert!(caps.is_empty());
    assert!(router.route("/a").is_none());
    assert!(router.route("/a/b/c").is_none());
}

#[test]
fn empty_segments_are_ignored() {
    let router = Router::new().add_route("a//b/", Method::Get(2u32));
    let (h, _) = router.route("//a/b//").unwrap();
    assert_eq!(get(h), Some(2));
}

#[test]
fn captures_take_one_segment() {
    let router = Router::new().add_route("/user/:id/posts", Method::Get(3u32));
    let (h, caps) = router.route("/user/42/posts").unwrap();
    assert_eq!(get(h), Some(3));
    assert_eq!(caps.into_iter().collect::<Vec<_>>(), vec!["42".to_string()]);
}

#[test]
fn collect_takes_the_rest_of_the_path() {
    let router = Router::new().add_route("/files/*", Method::Get(4u32));
    let (h, caps) = router.route("/files/a//b").unwrap();
    assert_eq!(get(h), Some(4));
    assert_eq!(
        caps.into_iter().collect::<Vec<_>>(),
        vec!["a".to_string(), String::new(), "b".to_string()]
    );
}

#[test]
fn first_matching_child_wins() {
    let router = Router::new()
        .add_route("/x/:v", Method::Get(5u32))
        .add_route("/x/lit", Method::Get(6u32));
    let (h, caps) = router.route("/x/lit").unwrap();
    assert_eq!(get(h), Some(5));
    assert_eq!(caps.len(), 1);
}

#[test]
fn methods_share_a_route() {
    let router = Router::new().add_route("/", (Method::Get(1u32), Method::Post(2u32)));
    let (h, _) = router.route("/").unwrap();
    assert_eq!(h.get(&"GET".to_string()), Some(&1));
    assert_eq!(h.get(&"POST".to_string()), Some(&2));
    assert_eq!(h.get(&"PUT".to_string()), None);
}

#[test]
fn adding_a_route_again_replaces_it() {
    let router = Router::new()
        .add_route("/a", Method::Get(1u32))
        .add_route("/a", Method::Post(2u32));
    let (h, _) = router.route("/a").unwrap();
    assert_eq!(h.get(&"GET".to_string()), None);
    assert_eq!(h.get(&"POST".to_string()), Some(&2));
}

#[test]
fn fallback_is_kept() {
    let router: Router<u32> = Router::new();
    assert!(router.get_fallback().is_none());
    let router = router.fallback(9);
    assert_eq!(router.get_fallback(), Some(&9));
}

#[test]
fn method_inner_names_the_method() {
    assert_eq!(Method::Delete(7u8).inner(), ("DELETE".to_string(), 7u8));
    assert_eq!(Method::Options(1u8).inner().0, "OPTIONS");
}

#[test]
fn handler_binds_methods() {
    let mut h: Handler<u8> = Handler::new();
    h.insert("GET".to_string(), 1);
    h.insert("GET".to_string(), 2);
    assert_eq!(h.get(&"GET".to_string()), Some(&2));
}

#[test]
fn scopes_hold_systems_and_children() {
    let scope = Scope::new(vec![1u8, 2])
        .route("user".to_string(), Scope::new(vec![3]))
        .route("chained".to_string(), Scope::empty());
    assert_eq!(scope.systems(), &[1, 2]);
    assert_eq!(scope.get_child("user").unwrap().systems(), &[3]);
    assert!(scope.get_child("chained").unwrap().systems().is_empty());
    assert!(scope.get_child("other").is_none());
}

#[test]
fn a_single_capture_route_gives_the_segment() {
    let router = Router::new().add_route("/users/:id", Method::Get(8u32));
    let (h, caps) = router.route("/users/42").unwrap();
    assert_eq!(get(h), Some(8));
    assert_eq!(caps.into_iter().collect::<Vec<_>>(), vec!["42".to_string()]);
    assert!(router.route("/users").is_none());
    assert!(router.route("/users/42/more").is_none());
    assert!(router.route("/people/42").is_none());
}

#[test]
fn a_single_collect_route_gives_the_rest() {
    let router = Router::new().add_route("/static/*", Method::Get(9u32));
    let (h, caps) = router.route("/static/css/site.css").unwrap();
    assert_eq!(get(h), Some(9));
    assert_eq!(
        caps.into_iter().collect::<Vec<_>>(),
        vec!["css".to_string(), "site.css".to_string()]
    );
    assert!(router.route("/static").is_none());
    assert!(router.route("/static/").is_none());
}

#[test]
fn a_collect_in_the_middle_reaches_nothing() {
    let router = Router::new().add_route("/a/*/b", Method::Get(10u32));
    assert!(router.route("/a/x/b").is_none());
    assert!(router.route("/a/x").is_none());
}

#[test]
fn doubled_slashes_route_alike() {
    let router = Router::new()
        .add_route("/users/:id", Method::Get(11u32))
        .add_route("/files/*", Method::Get(12u32));
    let (h1, c1) = router.route("/users/42").unwrap();
    let (h2, c2) = router.route("//users///42/").unwrap();
    assert_eq!(get(h1), get(h2));
    assert_eq!(c1, c2);
    let (h3, c3) = router.route("/files/a/b").unwrap();
    let (h4, c4) = router.route("/files//a/b/").unwrap();
    assert_eq!(get(h3), get(h4));
    assert_eq!(c3.into_iter().collect::<Vec<_>>(), vec!["a".to_string(), "b".to_string()]);
    assert_eq!(
        c4.into_iter().collect::<Vec<_>>(),
        vec!["a".to_string(), "b".to_string(), String::new()]
    );
}

#[test]
fn adding_a_route_keeps_earlier_routes() {
    let before = Router::new()
        .add_route("/a/:x", Method::Get(13u32))
        .add_route("/b", Method::Get(14u32));
    let after = Router::new()
        .add_route("/a/:x", Method::Get(13u32))
        .add_route("/b", Method::Get(14u32))
        .add_route("/a/fixed", Method::Get(15u32));
    for path in ["/a/1", "/a/fixed", "/b"] {
        let (h1, c1) = before.route(path).unwrap();
        let (h2, c2) = after.route(path).unwrap();
        assert_eq!(get(h1), get(h2));
        assert_eq!(c1, c2);
    }
}
