//! Resolving the parameters of a system from the request being handled.

use vstd::prelude::*;

use crate::error::Error;
use crate::http_checks::{uri_accepts, uri_path, uri_path_of};
use crate::http_utils::Request;
use crate::response::RawResponse;
use crate::routing::Captures;
use crate::str_map::StrMap;
use crate::text::utf8_str;
use vstd::utf8::{decode_utf8, valid_utf8};

verus! {

/// The state a request is handled in: the application's shared state `C`, the request with
/// its body, and the decoded url query.
pub struct RequestState<C> {
    pub cache: C,
    pub request: Request<Vec<u8>>,
    pub query: StrMap<String>,
}

/// What resolving a parameter gives.
pub enum ResolveGuard<T> {
    /// The value; the system may run.
    Value(T),
    /// Do not run this system or any other; answer with this response.
    Respond(RawResponse),
    /// Do not run this system; answer with the error.
    Fail(Error),
}

impl<T> ResolveGuard<T> {
    /// Applies `f` to a value; a response or an error is passed on unchanged.
    pub fn map<N, F: Fn(T) -> N>(self, f: F) -> (r: ResolveGuard<N>)
        requires
            self is Value ==> call_requires(f, (self->Value_0,)),
        ensures
            match self {
                ResolveGuard::Value(v) => r is Value && call_ensures(f, (v,), r->Value_0),
                ResolveGuard::Respond(x) => r == ResolveGuard::<N>::Respond(x),
                ResolveGuard::Fail(e) => r == ResolveGuard::<N>::Fail(e),
            },
    {
        match self {
            ResolveGuard::Value(v) => ResolveGuard::Value(f(v)),
            ResolveGuard::Respond(x) => ResolveGuard::Respond(x),
            ResolveGuard::Fail(e) => ResolveGuard::Fail(e),
        }
    }

    /// The guard that fails with `e`.
    pub fn err(e: Error) -> (r: Self)
        ensures
            r == ResolveGuard::<T>::Fail(e),
    {
        ResolveGuard::Fail(e)
    }
}

/// Types that are resolved from the request state, as the parameters of a system.
pub trait Resolve<C>: Sized {
    /// Whether resolving with the url parts `captures` may give `guard` and leave the url
    /// parts `rest` to the parameters after it; an impl that says nothing of it leaves it open.
    open spec fn resolves(
        ctx: &RequestState<C>,
        captures: Seq<String>,
        guard: ResolveGuard<Self>,
        rest: Seq<String>,
    ) -> bool {
        true
    }

    /// Resolves the value, taking url parts from the front of `captures` as it needs them;
    /// none is ever added.
    fn resolve(ctx: &RequestState<C>, captures: &mut Captures) -> (r: ResolveGuard<Self>)
        ensures
            Self::resolves(ctx, old(captures)@, r, final(captures)@),
            final(captures)@.len() <= old(captures)@.len(),
    ;
}

/// Guards on the GET method.
pub struct Get;

impl<C> Resolve<C> for Get {
    open spec fn resolves(
        ctx: &RequestState<C>,
        captures: Seq<String>,
        guard: ResolveGuard<Self>,
        rest: Seq<String>,
    ) -> bool {
        &&& rest == captures
        &&& guard == if ctx.request.method@ == "GET"@ {
            ResolveGuard::Value(Get)
        } else {
            ResolveGuard::<Get>::Fail(Error::NotFound)
        }
    }

    /// The value when the request method is GET; otherwise the system does not run.
    fn resolve(ctx: &RequestState<C>, captures: &mut Captures) -> (r: ResolveGuard<Self>) {
        if ctx.request.method == "GET".to_owned() {
            ResolveGuard::Value(Get)
        } else {
            ResolveGuard::Fail(Error::NotFound)
        }
    }
}

/// Guards on the POST method.
pub struct Post;

impl<C> Resolve<C> for Post {
    open spec fn resolves(
        ctx: &RequestState<C>,
        captures: Seq<String>,
        guard: ResolveGuard<Self>,
        rest: Seq<String>,
    ) -> bool {
        &&& rest == captures
        &&& guard == if ctx.request.method@ == "POST"@ {
            ResolveGuard::Value(Post)
        } else {
            ResolveGuard::<Post>::Fail(Error::NotFound)
        }
    }

    /// The value when the request method is POST; otherwise the system does not run.
    fn resolve(ctx: &RequestState<C>, captures: &mut Captures) -> (r: ResolveGuard<Self>) {
        if ctx.request.method == "POST".to_owned() {
            ResolveGuard::Value(Post)
        } else {
            ResolveGuard::Fail(Error::NotFound)
        }
    }
}

/// Guards on the url parts being used up: the system runs only when no non-empty url part
/// is left.
pub struct Endpoint;

impl<C> Resolve<C> for Endpoint {
    open spec fn resolves(
        ctx: &RequestState<C>,
        captures: Seq<String>,
        guard: ResolveGuard<Self>,
        rest: Seq<String>,
    ) -> bool {
        &&& rest == captures
        &&& guard == if captures.len() > 0 && captures[0]@.len() > 0 {
            ResolveGuard::<Endpoint>::Fail(Error::NotFound)
        } else {
            ResolveGuard::Value(Endpoint)
        }
    }

    fn resolve(ctx: &RequestState<C>, captures: &mut Captures) -> (r: ResolveGuard<Self>) {
        if captures.len() > 0 && !captures[0].as_str().is_empty() {
            ResolveGuard::Fail(Error::NotFound)
        } else {
            ResolveGuard::Value(Endpoint)
        }
    }
}

/// The path of the request.
pub struct Url(pub String);

impl<C> Resolve<C> for Url {
    open spec fn resolves(
        ctx: &RequestState<C>,
        captures: Seq<String>,
        guard: ResolveGuard<Self>,
        rest: Seq<String>,
    ) -> bool {
        &&& rest == captures
        &&& if uri_accepts(ctx.request.uri@) {
            guard is Value && guard->Value_0.0@ == uri_path_of(ctx.request.uri@)
        } else {
            guard == ResolveGuard::<Url>::Fail(Error::MalformedRequest)
        }
    }

    /// The path component of the request target; a target that is no URI fails as malformed.
    fn resolve(ctx: &RequestState<C>, captures: &mut Captures) -> (r: ResolveGuard<Self>) {
        match uri_path(ctx.request.uri.as_str()) {
            Some(p) => ResolveGuard::Value(Url(p)),
            None => ResolveGuard::Fail(Error::MalformedRequest),
        }
    }
}

/// The next url part captured by the route.
pub struct UrlPart(pub String);

impl<C> Resolve<C> for UrlPart {
    open spec fn resolves(
        ctx: &RequestState<C>,
        captures: Seq<String>,
        guard: ResolveGuard<Self>,
        rest: Seq<String>,
    ) -> bool {
        if captures.len() > 0 {
            &&& guard == ResolveGuard::Value(UrlPart(captures[0]))
            &&& rest == captures.drop_first()
        } else {
            &&& guard == ResolveGuard::<UrlPart>::Fail(Error::MissingUrlPart)
            &&& rest == captures
        }
    }

    /// Takes the first url part left; fails when none is left.
    fn resolve(ctx: &RequestState<C>, captures: &mut Captures) -> (r: ResolveGuard<Self>) {
        let ghost before = captures@;
        match captures.pop_front() {
            Some(part) => {
                assert(captures@ == before.drop_first());
                ResolveGuard::Value(UrlPart(part))
            },
            None => ResolveGuard::Fail(Error::MissingUrlPart),
        }
    }
}

/// All the url parts left, in order.
pub struct UrlCollect(pub Vec<String>);

impl<C> Resolve<C> for UrlCollect {
    open spec fn resolves(
        ctx: &RequestState<C>,
        captures: Seq<String>,
        guard: ResolveGuard<Self>,
        rest: Seq<String>,
    ) -> bool {
        &&& guard is Value
        &&& guard->Value_0.0@ == captures
        &&& rest == Seq::<String>::empty()
    }

    /// Takes every url part left.
    fn resolve(ctx: &RequestState<C>, captures: &mut Captures) -> (r: ResolveGuard<Self>) {
        let ghost before = captures@;
        let mut parts: Vec<String> = Vec::new();
        while captures.len() > 0
            invariant
                parts@ + captures@ == before,
            decreases captures@.len(),
        {
            match captures.pop_front() {
                Some(part) => {
                    parts.push(part);
                    assert(parts@ + captures@ =~= before);
                },
                None => {},
            }
        }
        assert(parts@ =~= before);
        assert(captures@ =~= Seq::<String>::empty());
        ResolveGuard::Value(UrlCollect(parts))
    }
}

/// The headers of the request, in the order they were given.
pub struct HeaderMap(pub Vec<(String, String)>);

impl<C> Resolve<C> for HeaderMap {
    open spec fn resolves(
        ctx: &RequestState<C>,
        captures: Seq<String>,
        guard: ResolveGuard<Self>,
        rest: Seq<String>,
    ) -> bool {
        &&& rest == captures
        &&& guard is Value
        &&& guard->Value_0.0@ == ctx.request.headers@
    }

    fn resolve(ctx: &RequestState<C>, captures: &mut Captures) -> (r: ResolveGuard<Self>) {
        let headers = &ctx.request.headers;
        let mut copy: Vec<(String, String)> = Vec::new();
        let mut i: usize = 0;
        while i < headers.len()
            invariant
                i <= headers@.len(),
                copy@ == headers@.take(i as int),
            decreases headers@.len() - i,
        {
            let name = headers[i].0.clone();
            let value = headers[i].1.clone();
            copy.push((name, value));
            assert(headers@.take(i + 1) == headers@.take(i as int).push(headers@[i as int]));
            i = i + 1;
        }
        assert(copy@ == headers@);
        ResolveGuard::Value(HeaderMap(copy))
    }
}

/// The decoded url query of the request, as a map from names to values.
pub struct ArgMap(pub StrMap<String>);

impl<C> Resolve<C> for ArgMap {
    open spec fn resolves(
        ctx: &RequestState<C>,
        captures: Seq<String>,
        guard: ResolveGuard<Self>,
        rest: Seq<String>,
    ) -> bool {
        &&& rest == captures
        &&& guard is Value
        &&& guard->Value_0.0@ == ctx.query@
    }

    fn resolve(ctx: &RequestState<C>, captures: &mut Captures) -> (r: ResolveGuard<Self>) {
        ResolveGuard::Value(ArgMap(ctx.query.duplicate()))
    }
}

/// The body of the request, as bytes.
impl<C> Resolve<C> for Vec<u8> {
    open spec fn resolves(
        ctx: &RequestState<C>,
        captures: Seq<String>,
        guard: ResolveGuard<Self>,
        rest: Seq<String>,
    ) -> bool {
        &&& rest == captures
        &&& guard is Value
        &&& guard->Value_0@ == ctx.request.body@
    }

    fn resolve(ctx: &RequestState<C>, captures: &mut Captures) -> (r: ResolveGuard<Self>) {
        ResolveGuard::Value(vstd::slice::slice_to_vec(ctx.request.body.as_slice()))
    }
}

/// The body of the request, as text; a body that is not UTF-8 fails as malformed.
impl<C> Resolve<C> for String {
    open spec fn resolves(
        ctx: &RequestState<C>,
        captures: Seq<String>,
        guard: ResolveGuard<Self>,
        rest: Seq<String>,
    ) -> bool {
        &&& rest == captures
        &&& if valid_utf8(ctx.request.body@) {
            guard is Value && guard->Value_0@ == decode_utf8(ctx.request.body@)
        } else {
            guard == ResolveGuard::<String>::Fail(Error::MalformedRequest)
        }
    }

    fn resolve(ctx: &RequestState<C>, captures: &mut Captures) -> (r: ResolveGuard<Self>) {
        match utf8_str(ctx.request.body.as_slice()) {
            Some(s) => ResolveGuard::Value(s.to_owned()),
            None => ResolveGuard::Fail(Error::MalformedRequest),
        }
    }
}

/// A parameter that may be missing: `Some` of its value when it resolves to one, `None`
/// when it does not.
impl<C, T: Resolve<C>> Resolve<C> for Option<T> {
    open spec fn resolves(
        ctx: &RequestState<C>,
        captures: Seq<String>,
        guard: ResolveGuard<Self>,
        rest: Seq<String>,
    ) -> bool {
        exists|inner: ResolveGuard<T>|
            #[trigger] T::resolves(ctx, captures, inner, rest) && guard == match inner {
                ResolveGuard::Value(v) => ResolveGuard::Value(Some(v)),
                _ => ResolveGuard::<Option<T>>::Value(None),
            }
    }

    fn resolve(ctx: &RequestState<C>, captures: &mut Captures) -> (r: ResolveGuard<Self>) {
        let inner = T::resolve(ctx, captures);
        let ghost g = inner;
        let r = match inner {
            ResolveGuard::Value(v) => ResolveGuard::Value(Some(v)),
            _ => ResolveGuard::Value(None),
        };
        assert(T::resolves(ctx, old(captures)@, g, captures@));
        r
    }
}

} // verus!
