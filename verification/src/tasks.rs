//! Handling one request: from the parsed request to the response to send.

use std::collections::VecDeque;
use vstd::prelude::*;

use crate::action::{is_status_response, Action, IntoResponse};
use crate::http_checks::{uri_accepts, uri_text, uri_text_of};
use crate::http_utils::Request;
use crate::resolve::RequestState;
use crate::response::RawResponse;
use crate::routing::Router;
use crate::systems::DynSystem;
use crate::websocket::{handshake_response, respond_handshake, UpgradeHandler};
use crate::text::{find_char, first_index, str_chars, string_from_chars, sub_chars};
use crate::url_decoding::{spec_map, text_map};

verus! {

/// How a request is answered.
pub enum Reply {
    /// Send this response as it is.
    Direct(RawResponse),
    /// Pass this response through the response layer, then send it.
    Layered(RawResponse),
    /// Send this handshake response as it is, then hand the connection's stream to the
    /// handler.
    Upgrade(RawResponse, UpgradeHandler),
}

/// The path and the query of a request target: the text before and after its first `?`;
/// the query is empty when there is no `?`.
pub open spec fn split_target(t: Seq<char>) -> (Seq<char>, Seq<char>) {
    match first_index(t, '?') {
        Some(i) => (t.take(i), t.skip(i + 1)),
        None => (t, Seq::empty()),
    }
}

/// The answer an action of a routed system stands for: its response, or the response of its
/// error (the library's or the application's own), through the response layer; for an upgrade, the handshake response, with the
/// handler when the handshake succeeds (101) and alone otherwise.
pub open spec fn action_reply<B>(a: Action, req: &Request<B>, r: Reply) -> bool {
    match a {
        Action::Respond(x) => r == Reply::Layered(x),
        Action::Fail(e) => r matches Reply::Layered(x) && is_status_response(x, e.status_code()),
        Action::AppError(e) => r matches Reply::Layered(x) && e.error_response(x),
        Action::Upgrade(h) => match r {
            Reply::Upgrade(x, g) => g == h && handshake_response(req, x) && x.spec_status() == 101,
            Reply::Direct(x) => handshake_response(req, x) && x.spec_status() != 101,
            Reply::Layered(_) => false,
        },
    }
}

/// The response of the fallback: the built-in one answers 404; a fallback system answers
/// with its response, and with 500 when it fails or asks for an upgrade.
pub open spec fn fallback_response<C>(
    router: &Router<DynSystem<C>>,
    ctx: &RequestState<C>,
    r: RawResponse,
) -> bool {
    match router.fallback_system() {
        None => is_status_response(r, 404),
        Some(f) => exists|a: Action, rest: Seq<String>|
            #[trigger] f.runs(ctx, Seq::<String>::empty(), a, rest) && match a {
                Action::Respond(x) => r == x,
                _ => is_status_response(r, 500),
            },
    }
}

/// The answer routing gives: that of the system of the route the path reaches and the
/// request method selects, run with the url parts the route captured; the fallback's response,
/// through the response layer, when no route or no method matches.
pub open spec fn routed_reply<C>(
    router: &Router<DynSystem<C>>,
    ctx: &RequestState<C>,
    path: Seq<char>,
    r: Reply,
) -> bool {
    match router.routes_to(path) {
        None => r matches Reply::Layered(x) && fallback_response(router, ctx, x),
        Some((h, caps)) => if h.contains_key(ctx.request.method@) {
            exists|cs: Seq<String>, a: Action, rest: Seq<String>|
                #[trigger] h[ctx.request.method@].runs(ctx, cs, a, rest) && cs.map_values(
                    |s: String| s@,
                ) == caps && action_reply(a, &ctx.request, r)
        } else {
            r matches Reply::Layered(x) && fallback_response(router, ctx, x)
        },
    }
}

/// Answers with the fallback.
fn respond_fallback<C: Send + Sync + 'static>(
    ctx: &RequestState<C>,
    router: &Router<DynSystem<C>>,
) -> (r: RawResponse)
    ensures
        fallback_response(router, ctx, r),
{
    match router.get_fallback() {
        None => 404u16.response(),
        Some(system) => {
            let mut captures: VecDeque<String> = VecDeque::new();
            let action = system.call(ctx, &mut captures);
            let ghost a = action;
            let ghost rest = captures@;
            match action {
                Action::Respond(x) => x,
                _ => {
                    let r = 500u16.response();
                    assert(system.runs(ctx, Seq::<String>::empty(), a, rest));
                    r
                },
            }
        },
    }
}

/// Handles a request: splits its target into path and query, decodes the query, routes the
/// path and runs the system that the route and the request method select.
///
/// A target that is not a URI, or a query that does not decode, is answered 400 directly; so
/// is a websocket handshake that fails; a successful handshake is answered with the handler
/// to hand the stream to; every other answer goes through the response layer.
pub fn handle_request<C: Send + Sync + 'static>(
    router: &Router<DynSystem<C>>,
    cache: C,
    request: Request<Vec<u8>>,
) -> (r: Reply)
    ensures
        !uri_accepts(request.uri@) ==> r is Direct && is_status_response(r->Direct_0, 400),
        uri_accepts(request.uri@) ==> match spec_map(split_target(uri_text_of(request.uri@)).1) {
            None => r is Direct && is_status_response(r->Direct_0, 400),
            Some(m) => exists|ctx: RequestState<C>|
                ctx.cache == cache && ctx.request == request && text_map(ctx.query@) == m
                    && #[trigger] routed_reply(router, &ctx, split_target(uri_text_of(request.uri@)).0, r),
        },
{
    let ghost req0 = request;
    let ghost cache0 = cache;
    let target = match uri_text(request.uri.as_str()) {
        None => {
            return Reply::Direct(400u16.response());
        },
        Some(t) => t,
    };
    let cs = str_chars(target.as_str());
    let (path, query) = match find_char(&cs, '?') {
        Some(i) => {
            let n = cs.len();
            assert(i < n);
            let before = sub_chars(&cs, 0, i);
            let after = sub_chars(&cs, i + 1, n);
            (string_from_chars(&before), string_from_chars(&after))
        },
        None => (string_from_chars(&cs), String::new()),
    };
    assert(cs@.take(cs@.len() as int) == cs@);
    assert((path@, query@) == split_target(uri_text_of(request.uri@)));
    let ghost query_text = query@;
    let query = match crate::url_decoding::map(query.as_str()) {
        None => {
            return Reply::Direct(400u16.response());
        },
        Some(q) => q,
    };
    let ctx = RequestState { cache, request, query };
    let r = match router.route(path.as_str()) {
        None => Reply::Layered(respond_fallback(&ctx, router)),
        Some((handler, captures)) => match handler.get(&ctx.request.method) {
            None => Reply::Layered(respond_fallback(&ctx, router)),
            Some(system) => {
                let mut captures = captures;
                let ghost parts = captures@;
                let action = system.call(&ctx, &mut captures);
                let ghost a = action;
                let ghost rest = captures@;
                let r = match action {
                    Action::Respond(x) => Reply::Layered(x),
                    Action::Fail(e) => Reply::Layered(e.response()),
                    Action::AppError(e) => Reply::Layered(e.box_response()),
                    Action::Upgrade(h) => {
                        let x = respond_handshake(&ctx.request);
                        if x.status() == 101 {
                            Reply::Upgrade(x, h)
                        } else {
                            Reply::Direct(x)
                        }
                    },
                };
                assert(system.runs(&ctx, parts, a, rest));
                r
            },
        },
    };
    assert(routed_reply(router, &ctx, path@, r));
    assert(spec_map(query_text) == Some(text_map(ctx.query@)));
    assert(ctx.request == req0 && ctx.cache == cache0);
    assert(split_target(uri_text_of(req0.uri@)).0 == path@);
    assert(split_target(uri_text_of(req0.uri@)).1 == query_text);
    r
}

} // verus!
