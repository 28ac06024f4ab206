//! Scopes: a tree of path segments, each node holding the systems run there.

use vstd::prelude::*;

use std::collections::VecDeque;

use crate::action::{is_status_response, Action, IntoResponse};
use crate::http_checks::{uri_accepts, uri_path, uri_path_of};
use crate::http_utils::Request;
use crate::resolve::RequestState;
use crate::response::RawResponse;
use crate::str_map::{get_pair, insert_pair, pairs_map, unique_keys, StrMap};
use crate::systems::DynSystem;
use crate::tasks::Reply;
use crate::text::{split_chars, split_on, str_chars, string_from_chars, views};

verus! {

/// A node of a scope tree: the systems run at this node, and the child scopes by path segment.
pub struct Scope<S> {
    children: Vec<(String, Scope<S>)>,
    systems: Vec<S>,
}

impl<S> Scope<S> {
    #[verifier::type_invariant]
    spec fn inv(&self) -> bool {
        unique_keys(self.children@)
    }

    /// The child scopes, by path segment.
    pub closed spec fn children(&self) -> Map<Seq<char>, Scope<S>> {
        pairs_map(self.children@)
    }

    /// The systems of this node, in order.
    pub closed spec fn system_list(&self) -> Seq<S> {
        self.systems@
    }

    /// A scope with these systems and no child.
    pub fn new(systems: Vec<S>) -> (r: Self)
        ensures
            r.system_list() == systems@,
            r.children() == Map::<Seq<char>, Scope<S>>::empty(),
    {
        let r = Scope { children: Vec::new(), systems };
        assert(pairs_map(r.children@) =~= Map::<Seq<char>, Scope<S>>::empty());
        r
    }

    /// A scope with no system and no child.
    pub fn empty() -> (r: Self)
        ensures
            r.system_list() == Seq::<S>::empty(),
            r.children() == Map::<Seq<char>, Scope<S>>::empty(),
    {
        Scope::new(Vec::new())
    }

    /// This scope with `route` as its child at `path`, replacing a child there.
    pub fn route(self, path: String, route: Scope<S>) -> (r: Self)
        ensures
            r.system_list() == self.system_list(),
            r.children() == self.children().insert(path@, route),
    {
        proof {
            use_type_invariant(&self);
        }
        let mut children = self.children;
        insert_pair(&mut children, path, route);
        Scope { children, systems: self.systems }
    }

    /// The systems of this node, in order.
    pub fn systems(&self) -> (r: &[S])
        ensures
            r@ == self.system_list(),
    {
        self.systems.as_slice()
    }

    /// The child scope at `path`, if any.
    pub fn get_child(&self, path: &str) -> (r: Option<&Scope<S>>)
        ensures
            match r {
                Some(c) => self.children().contains_key(path@) && self.children()[path@] == *c,
                None => !self.children().contains_key(path@),
            },
    {
        proof {
            use_type_invariant(self);
        }
        let key = path.to_owned();
        get_pair(&self.children, &key)
    }
}

/// Whether the systems `systems`, run in order on the url parts `parts` until one responds,
/// may end with `r` and leave the url parts `left`: the parts each system takes are gone for
/// the systems after it; `r` is the response of the first that responds, or `None` when none
/// does. A system that fails, or asks for a websocket upgrade, does not respond here.
pub open spec fn systems_answer<C>(
    systems: Seq<DynSystem<C>>,
    ctx: &RequestState<C>,
    parts: Seq<String>,
    r: Option<RawResponse>,
    left: Seq<String>,
) -> bool
    decreases systems.len(),
{
    if systems.len() == 0 {
        r is None && left == parts
    } else {
        exists|a: Action, mid: Seq<String>|
            #[trigger] systems[0].runs(ctx, parts, a, mid) && match a {
                Action::Respond(x) => r == Some(x) && left == mid,
                _ => systems_answer(systems.drop_first(), ctx, mid, r, left),
            }
    }
}

/// Whether walking the scope `s`, with the url parts `parts` still ahead, may end with `r`:
/// the systems of `s` run first, on the parts ahead; without a response the walk takes the
/// next part the systems left and steps to the child it names, and stops without a response
/// when no part is left or no child has that name. (Systems never add parts; a walk whose
/// systems left more parts than they were given would stop too.)
pub open spec fn scope_walk<C>(
    s: Scope<DynSystem<C>>,
    ctx: &RequestState<C>,
    parts: Seq<String>,
    r: Option<RawResponse>,
) -> bool
    decreases parts.len(),
{
    exists|here: Option<RawResponse>, left: Seq<String>|
        #[trigger] systems_answer(s.system_list(), ctx, parts, here, left) && match here {
            Some(x) => r == Some(x),
            None => if left.len() == 0 || left.len() > parts.len() || !s.children().contains_key(left[0]@) {
                r is None
            } else {
                scope_walk(s.children()[left[0]@], ctx, left.drop_first(), r)
            },
        }
}

/// System-order law: the systems of a node run in list order, and the first response ends
/// the run: when the first system always responds with `x` on the parts given, the node
/// answers `x` whatever the systems after it would do.
pub proof fn lemma_first_system_answers<C>(
    systems: Seq<DynSystem<C>>,
    ctx: &RequestState<C>,
    parts: Seq<String>,
    x: RawResponse,
    r: Option<RawResponse>,
    left: Seq<String>,
)
    requires
        systems.len() > 0,
        forall|a: Action, m: Seq<String>| #[trigger] systems[0].runs(ctx, parts, a, m) ==> a == Action::Respond(x),
        systems_answer(systems, ctx, parts, r, left),
    ensures
        r == Some(x),
{
}

/// System-order law: a node with no system does not respond, and takes no url part.
pub proof fn lemma_no_system_answers<C>(
    ctx: &RequestState<C>,
    parts: Seq<String>,
    r: Option<RawResponse>,
    left: Seq<String>,
)
    requires
        systems_answer(Seq::<DynSystem<C>>::empty(), ctx, parts, r, left),
    ensures
        r is None,
        left == parts,
{
}

/// Scope law: a walk stops at a node whose first system always responds: the scope whose
/// first system always responds with `x` on the parts given is answered `x`.
pub proof fn lemma_scope_first_system_answers<C>(
    s: Scope<DynSystem<C>>,
    ctx: &RequestState<C>,
    parts: Seq<String>,
    x: RawResponse,
    r: Option<RawResponse>,
)
    requires
        s.system_list().len() > 0,
        forall|a: Action, m: Seq<String>| #[trigger] s.system_list()[0].runs(ctx, parts, a, m) ==> a == Action::Respond(x),
        scope_walk(s, ctx, parts, r),
    ensures
        r == Some(x),
{
    let (here, left) = choose|here: Option<RawResponse>, left: Seq<String>|
        #[trigger] systems_answer(s.system_list(), ctx, parts, here, left) && match here {
            Some(y) => r == Some(y),
            None => if left.len() == 0 || left.len() > parts.len() || !s.children().contains_key(left[0]@) {
                r is None
            } else {
                scope_walk(s.children()[left[0]@], ctx, left.drop_first(), r)
            },
        };
    lemma_first_system_answers(s.system_list(), ctx, parts, x, here, left);
}

/// A fresh copy of url parts, for one system.
fn parts_of(pieces: &Vec<Vec<char>>, from: usize) -> (r: VecDeque<String>)
    requires
        from <= pieces@.len(),
    ensures
        r@.map_values(|s: String| s@) == views(pieces@).skip(from as int),
{
    let mut r: VecDeque<String> = VecDeque::new();
    let mut i: usize = from;
    while i < pieces.len()
        invariant
            from <= i <= pieces@.len(),
            r@.map_values(|s: String| s@) == views(pieces@).subrange(from as int, i as int),
        decreases pieces@.len() - i,
    {
        let ghost before = r@;
        let part = string_from_chars(&pieces[i]);
        let ghost pv = part@;
        r.push_back(part);
        assert(r@ == before.push(r@.last()));
        assert(r@.last()@ == pv);
        assert(views(pieces@)[i as int] == pv);
        assert(r@.map_values(|s: String| s@) =~= before.map_values(|s: String| s@).push(pv));
        assert(views(pieces@).subrange(from as int, i + 1) =~= views(pieces@).subrange(from as int, i as int).push(pv));
        i = i + 1;
    }
    assert(views(pieces@).subrange(from as int, i as int) =~= views(pieces@).skip(from as int));
    r
}

/// Runs the systems of a node in order until one responds, all on the same url parts.
fn answer_at<C>(systems: &[DynSystem<C>], ctx: &RequestState<C>, parts: &mut VecDeque<String>) -> (r: Option<
    RawResponse,
>)
    ensures
        systems_answer(systems@, ctx, old(parts)@, r, final(parts)@),
        final(parts)@.len() <= old(parts)@.len(),
{
    let ghost start = parts@;
    let mut j: usize = 0;
    assert(systems@.skip(0) == systems@);
    while j < systems.len()
        invariant
            j <= systems@.len(),
            start == old(parts)@,
            parts@.len() <= start.len(),
            forall|x: Option<RawResponse>, lf: Seq<String>|
                systems_answer(systems@.skip(j as int), ctx, parts@, x, lf) ==> #[trigger] systems_answer(
                    systems@,
                    ctx,
                    start,
                    x,
                    lf,
                ),
        decreases systems@.len() - j,
    {
        let ghost before = parts@;
        let action = systems[j].call(ctx, parts);
        let ghost a = action;
        let ghost mid = parts@;
        let ghost tail = systems@.skip(j as int);
        assert(tail[0] == systems@[j as int]);
        assert(tail.drop_first() == systems@.skip(j + 1));
        match action {
            Action::Respond(x) => {
                assert(systems_answer(tail, ctx, before, Some(x), mid)) by {
                    assert(tail[0].runs(ctx, before, a, mid));
                }
                return Some(x);
            },
            _ => {
                assert forall|x: Option<RawResponse>, lf: Seq<String>|
                    systems_answer(systems@.skip(j + 1), ctx, mid, x, lf) implies #[trigger] systems_answer(
                    systems@,
                    ctx,
                    start,
                    x,
                    lf,
                ) by {
                    assert(tail[0].runs(ctx, before, a, mid));
                    assert(systems_answer(tail, ctx, before, x, lf));
                }
            },
        }
        j = j + 1;
    }
    assert(systems@.skip(j as int).len() == 0);
    assert(systems_answer(systems@.skip(j as int), ctx, parts@, None, parts@));
    None
}

/// Walks a scope tree along the path of a request: at each node its systems run in order,
/// and the first response is the answer; without one the walk steps to the child named by
/// the next path piece. A walk that ends without a response is answered 404 directly. A
/// request target that is not a URI is answered 400 directly.
pub fn handle_scope_request<C>(scope: &Scope<DynSystem<C>>, cache: C, request: Request<Vec<u8>>) -> (r: Reply)
    ensures
        !uri_accepts(request.uri@) ==> r is Direct && is_status_response(r->Direct_0, 400),
        uri_accepts(request.uri@) ==> exists|ctx: RequestState<C>, parts: Seq<String>, w: Option<RawResponse>|
            ctx.cache == cache && ctx.request == request && ctx.query@ == Map::<Seq<char>, String>::empty()
                && parts.map_values(|x: String| x@) == split_on(uri_path_of(request.uri@), '/').drop_first()
                && #[trigger] scope_walk(*scope, &ctx, parts, w) && match w {
                Some(x) => r == Reply::Layered(x),
                None => r is Direct && is_status_response(r->Direct_0, 404),
            },
{
    let ghost req0 = request;
    let ghost cache0 = cache;
    let path = match uri_path(request.uri.as_str()) {
        None => {
            return Reply::Direct(400u16.response());
        },
        Some(p) => p,
    };
    let cs = str_chars(path.as_str());
    let pieces = split_chars(&cs, '/');
    proof {
        crate::text::lemma_split_on_nonempty(cs@, '/');
    }
    let mut parts = parts_of(&pieces, 1);
    let ghost all = parts@;
    assert(all.map_values(|x: String| x@) == split_on(uri_path_of(req0.uri@), '/').drop_first());
    let ctx = RequestState { cache, request, query: StrMap::new() };
    let mut cursor: &Scope<DynSystem<C>> = scope;
    let mut found: Option<RawResponse> = None;
    loop
        invariant_except_break
            found is None,
            forall|x: Option<RawResponse>|
                scope_walk(*cursor, &ctx, parts@, x) ==> #[trigger] scope_walk(*scope, &ctx, all, x),
        invariant
            uri_accepts(req0.uri@),
            ctx.request == req0,
            ctx.cache == cache0,
            ctx.query@ == Map::<Seq<char>, String>::empty(),
            all.map_values(|x: String| x@) == split_on(uri_path_of(req0.uri@), '/').drop_first(),
        ensures
            scope_walk(*scope, &ctx, all, found),
        decreases parts@.len(),
    {
        proof {
            use_type_invariant(cursor);
        }
        let ghost ahead = parts@;
        let here = answer_at(cursor.systems(), &ctx, &mut parts);
        let ghost left = parts@;
        match here {
            Some(x) => {
                assert(scope_walk(*cursor, &ctx, ahead, Some(x)));
                found = Some(x);
                break;
            },
            None => {},
        }
        match parts.pop_front() {
            None => {
                assert(scope_walk(*cursor, &ctx, ahead, None));
                break;
            },
            Some(name) => {
                assert(name == left[0]);
                assert(parts@ == left.drop_first());
                match cursor.get_child(name.as_str()) {
                    None => {
                        assert(scope_walk(*cursor, &ctx, ahead, None));
                        break;
                    },
                    Some(child) => {
                        assert forall|x: Option<RawResponse>|
                            scope_walk(*child, &ctx, parts@, x) implies #[trigger] scope_walk(*scope, &ctx, all, x) by {
                            assert(scope_walk(*cursor, &ctx, ahead, x));
                        }
                        cursor = child;
                    },
                }
            },
        }
    }
    match found {
        Some(x) => Reply::Layered(x),
        None => Reply::Direct(404u16.response()),
    }
}

} // verus!
