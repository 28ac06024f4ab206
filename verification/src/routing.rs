//! The router: a tree of path patterns, each node optionally holding a handler.

use std::collections::VecDeque;
use vstd::prelude::*;

use crate::handler::{apply_pairs, Handler, InsertHandler};
use crate::text::{chars_eq, split_chars, split_on, str_chars, string_from_chars, views};

verus! {

/// The url parts captured while routing, in path order.
pub type Captures = VecDeque<String>;

/// What a path segment stands for in a route: a fixed text, a capture of one segment
/// (`:name`) or a capture of the rest of the path (`*`).
pub enum PatternKey {
    Exact(Seq<char>),
    Capture,
    Collect,
}

/// The pattern that a route segment denotes.
pub open spec fn key_of(seg: Seq<char>) -> PatternKey {
    if seg.len() > 0 && seg[0] == ':' {
        PatternKey::Capture
    } else if seg == seq!['*'] {
        PatternKey::Collect
    } else {
        PatternKey::Exact(seg)
    }
}

/// The non-empty pieces, in order.
pub open spec fn nonempty_pieces(ps: Seq<Seq<char>>) -> Seq<Seq<char>>
    decreases ps.len(),
{
    if ps.len() == 0 {
        seq![]
    } else {
        let r = nonempty_pieces(ps.drop_last());
        if ps.last().len() > 0 {
            r.push(ps.last())
        } else {
            r
        }
    }
}

/// The patterns of the segments.
pub open spec fn keys_of(segs: Seq<Seq<char>>) -> Seq<PatternKey> {
    segs.map_values(|s: Seq<char>| key_of(s))
}

/// The patterns of a route path: its non-empty `/`-separated segments.
pub open spec fn route_keys(path: Seq<char>) -> Seq<PatternKey> {
    keys_of(nonempty_pieces(split_on(path, '/')))
}

enum Pattern {
    Exact(String),
    Capture,
    Collect,
}

impl Pattern {
    #[verifier::type_invariant]
    spec fn inv(&self) -> bool {
        match self {
            Pattern::Exact(s) => key_of(s@) == PatternKey::Exact(s@),
            _ => true,
        }
    }

    spec fn key(&self) -> PatternKey {
        match self {
            Pattern::Exact(s) => PatternKey::Exact(s@),
            Pattern::Capture => PatternKey::Capture,
            Pattern::Collect => PatternKey::Collect,
        }
    }

    /// Whether routing steps through this pattern on a request segment.
    spec fn matches(&self, seg: Seq<char>) -> bool {
        match self {
            Pattern::Exact(s) => s@ == seg,
            _ => true,
        }
    }

    fn new(s: &[char]) -> (r: Self)
        ensures
            r.key() == key_of(s@),
    {
        if s.len() > 0 && s[0] == ':' {
            Pattern::Capture
        } else if s.len() == 1 && s[0] == '*' {
            assert(s@ =~= seq!['*']);
            Pattern::Collect
        } else {
            assert(s@ != seq!['*']) by {
                if s@.len() == 1 {
                    assert(s@[0] != '*');
                }
            }
            Pattern::Exact(string_from_chars(s))
        }
    }

    /// Whether this pattern is the one a route segment denotes.
    fn exact(&self, rhs: &[char]) -> (r: bool)
        ensures
            r == (self.key() == key_of(rhs@)),
    {
        proof {
            use_type_invariant(self);
        }
        match self {
            Pattern::Exact(s) => {
                let cs = str_chars(s.as_str());
                chars_eq(&cs, rhs)
            },
            Pattern::Capture => rhs.len() > 0 && rhs[0] == ':',
            Pattern::Collect => {
                let r = rhs.len() == 1 && rhs[0] == '*';
                proof {
                    if rhs@ == seq!['*'] {
                        assert(rhs@[0] == '*');
                    }
                    if r {
                        assert(rhs@ =~= seq!['*']);
                    }
                }
                r
            },
        }
    }

    fn matches_segment(&self, seg: &[char]) -> (r: bool)
        ensures
            r == self.matches(seg@),
    {
        match self {
            Pattern::Exact(s) => {
                let cs = str_chars(s.as_str());
                chars_eq(&cs, seg)
            },
            _ => true,
        }
    }
}

struct Node<S> {
    handler: Option<Handler<S>>,
    children: Vec<(Pattern, Node<S>)>,
}

impl<S> Node<S> {
    fn new() -> (r: Self)
        ensures
            r.handler is None,
            r.children@.len() == 0,
    {
        Node { handler: None, children: Vec::new() }
    }
}

spec fn handler_view<S>(h: Option<Handler<S>>) -> Option<Map<Seq<char>, S>> {
    match h {
        Some(h) => Some(h@),
        None => None,
    }
}

/// `j` is the first child whose pattern is `k`.
spec fn first_key_child<S>(children: Seq<(Pattern, Node<S>)>, k: PatternKey, j: int) -> bool {
    &&& 0 <= j < children.len()
    &&& children[j].0.key() == k
    &&& forall|t: int| 0 <= t < j ==> (#[trigger] children[t]).0.key() != k
}

spec fn child_for_key<S>(children: Seq<(Pattern, Node<S>)>, k: PatternKey) -> Option<int> {
    if exists|j: int| first_key_child(children, k, j) {
        Some(choose|j: int| first_key_child(children, k, j))
    } else {
        None
    }
}

proof fn lemma_first_key_unique<S>(children: Seq<(Pattern, Node<S>)>, k: PatternKey, j: int)
    requires
        first_key_child(children, k, j),
    ensures
        child_for_key(children, k) == Some(j),
{
    let c = choose|c: int| first_key_child(children, k, c);
    if c < j {
        assert(children[c].0.key() != k);
    } else if c > j {
        assert(children[j].0.key() != k);
    }
}

/// Children lists in which the same indices carry pattern `k` give the same first child.
proof fn lemma_first_key_same<S>(
    a: Seq<(Pattern, Node<S>)>,
    b: Seq<(Pattern, Node<S>)>,
    k: PatternKey,
)
    requires
        b.len() >= a.len(),
        forall|t: int|
            0 <= t < b.len() ==> ((#[trigger] b[t]).0.key() == k <==> (t < a.len() && a[t].0.key()
                == k)),
    ensures
        child_for_key(a, k) == child_for_key(b, k),
{
    if exists|j: int| first_key_child(a, k, j) {
        let j = choose|j: int| first_key_child(a, k, j);
        assert forall|t: int| 0 <= t < j implies (#[trigger] b[t]).0.key() != k by {
            assert(a[t].0.key() != k);
        }
        assert(first_key_child(b, k, j));
        lemma_first_key_unique(b, k, j);
    } else if exists|j: int| first_key_child(b, k, j) {
        let j = choose|j: int| first_key_child(b, k, j);
        assert forall|t: int| 0 <= t < j implies (#[trigger] a[t]).0.key() != k by {
            assert(b[t].0.key() != k);
        }
        assert(first_key_child(a, k, j));
    }
}

/// The handler registered under a sequence of patterns below `node`.
spec fn lookup<S>(node: Node<S>, keys: Seq<PatternKey>) -> Option<Map<Seq<char>, S>>
    decreases keys.len(),
{
    if keys.len() == 0 {
        handler_view(node.handler)
    } else {
        match child_for_key(node.children@, keys[0]) {
            Some(j) => lookup(node.children@[j].1, keys.drop_first()),
            None => None,
        }
    }
}

proof fn lemma_lookup_new_node<S>(node: Node<S>, keys: Seq<PatternKey>)
    requires
        node.handler is None,
        node.children@.len() == 0,
    ensures
        lookup(node, keys) is None,
{
    if keys.len() > 0 {
        assert(!exists|j: int| first_key_child(node.children@, keys[0], j));
    }
}

/// The node reached by following a sequence of patterns.
spec fn node_at<S>(node: Node<S>, keys: Seq<PatternKey>) -> Option<Node<S>>
    decreases keys.len(),
{
    if keys.len() == 0 {
        Some(node)
    } else {
        match child_for_key(node.children@, keys[0]) {
            Some(j) => node_at(node.children@[j].1, keys.drop_first()),
            None => None,
        }
    }
}

/// Every child pattern of the node is a fixed text.
spec fn literal_node<S>(n: Node<S>) -> bool {
    forall|j: int| 0 <= j < n.children@.len() ==> (#[trigger] n.children@[j]).0 is Exact
}

/// Every pattern in the tree is a fixed text.
spec fn literal_tree<S>(n: Node<S>) -> bool {
    forall|keys: Seq<PatternKey>| #[trigger] node_at(n, keys) is Some ==> literal_node(node_at(n, keys)->Some_0)
}

proof fn lemma_literal_new_node<S>(node: Node<S>)
    requires
        node.children@.len() == 0,
    ensures
        literal_tree(node),
{
    assert forall|keys: Seq<PatternKey>| #[trigger] node_at(node, keys) is Some implies literal_node(node_at(node, keys)->Some_0) by {
        if keys.len() > 0 {
            assert(!exists|j: int| first_key_child(node.children@, keys[0], j));
        }
    }
}

/// All patterns are fixed texts.
pub open spec fn all_exact(keys: Seq<PatternKey>) -> bool {
    forall|t: int| 0 <= t < keys.len() ==> (#[trigger] keys[t]) is Exact
}

/// `j` is the first child that routing steps into for segment `seg`.
spec fn first_match_child<S>(children: Seq<(Pattern, Node<S>)>, seg: Seq<char>, j: int) -> bool {
    &&& 0 <= j < children.len()
    &&& children[j].0.matches(seg)
    &&& forall|t: int| 0 <= t < j ==> !(#[trigger] children[t]).0.matches(seg)
}

spec fn match_child<S>(children: Seq<(Pattern, Node<S>)>, seg: Seq<char>) -> Option<int> {
    if exists|j: int| first_match_child(children, seg, j) {
        Some(choose|j: int| first_match_child(children, seg, j))
    } else {
        None
    }
}

proof fn lemma_first_match_unique<S>(children: Seq<(Pattern, Node<S>)>, seg: Seq<char>, j: int)
    requires
        first_match_child(children, seg, j),
    ensures
        match_child(children, seg) == Some(j),
{
    let c = choose|c: int| first_match_child(children, seg, c);
    if c < j {
        assert(!children[c].0.matches(seg));
    } else if c > j {
        assert(!children[j].0.matches(seg));
    }
}

/// Routing from `node` through `pieces[i..]`, having captured `captured`: empty pieces are
/// skipped, each other piece steps into the first child whose pattern matches it, a capture
/// records the piece, and `*` records it with every piece after it and stops.
spec fn route_from<S>(node: Node<S>, pieces: Seq<Seq<char>>, i: int, captured: Seq<Seq<char>>) -> Option<
    (Map<Seq<char>, S>, Seq<Seq<char>>),
>
    decreases pieces.len() - i,
{
    if i < 0 || i >= pieces.len() {
        match node.handler {
            Some(h) => Some((h@, captured)),
            None => None,
        }
    } else if pieces[i].len() == 0 {
        route_from(node, pieces, i + 1, captured)
    } else {
        match match_child(node.children@, pieces[i]) {
            None => None,
            Some(j) => {
                let child = node.children@[j].1;
                match node.children@[j].0 {
                    Pattern::Exact(_) => route_from(child, pieces, i + 1, captured),
                    Pattern::Capture => route_from(child, pieces, i + 1, captured.push(pieces[i])),
                    Pattern::Collect => match child.handler {
                        Some(h) => Some((h@, captured + pieces.subrange(i, pieces.len() as int))),
                        None => None,
                    },
                }
            },
        }
    }
}

/// How the request pieces `pieces[i..]` match the route patterns `keys`, having captured
/// `captured`: empty pieces are skipped, a fixed text must equal its piece, a capture
/// records its piece, and a final `*` records its piece with every piece after it. The
/// result is the captured url parts, or `None` when the path does not fit the route.
pub open spec fn match_pieces(
    keys: Seq<PatternKey>,
    pieces: Seq<Seq<char>>,
    i: int,
    captured: Seq<Seq<char>>,
) -> Option<Seq<Seq<char>>>
    decreases pieces.len() - i,
{
    if i < 0 || i >= pieces.len() {
        if keys.len() == 0 {
            Some(captured)
        } else {
            None
        }
    } else if pieces[i].len() == 0 {
        match_pieces(keys, pieces, i + 1, captured)
    } else if keys.len() == 0 {
        None
    } else {
        match keys[0] {
            PatternKey::Exact(s) => if s == pieces[i] {
                match_pieces(keys.drop_first(), pieces, i + 1, captured)
            } else {
                None
            },
            PatternKey::Capture => match_pieces(keys.drop_first(), pieces, i + 1, captured.push(pieces[i])),
            PatternKey::Collect => if keys.len() == 1 {
                Some(captured + pieces.subrange(i, pieces.len() as int))
            } else {
                None
            },
        }
    }
}

/// The url parts that a request path captures on a route with patterns `keys`, or `None`
/// when the path does not fit the route.
pub open spec fn path_captures(keys: Seq<PatternKey>, path: Seq<char>) -> Option<Seq<Seq<char>>> {
    match_pieces(keys, split_on(path, '/'), 0, seq![])
}

/// Every node below `n` lies on the way along `keys`, and only the node at its end may hold
/// a handler.
spec fn chain<S>(n: Node<S>, keys: Seq<PatternKey>) -> bool
    decreases keys.len(),
{
    if keys.len() == 0 {
        n.children@.len() == 0
    } else {
        &&& n.handler is None
        &&& n.children@.len() <= 1
        &&& n.children@.len() == 1 ==> n.children@[0].0.key() == keys[0] && chain(
            n.children@[0].1,
            keys.drop_first(),
        )
    }
}

proof fn lemma_chain_new_node<S>(node: Node<S>, keys: Seq<PatternKey>)
    requires
        node.handler is None,
        node.children@.len() == 0,
    ensures
        chain(node, keys),
{
}

proof fn lemma_route_chain<S>(node: Node<S>, keys: Seq<PatternKey>, pieces: Seq<Seq<char>>, i: int, captured: Seq<Seq<char>>)
    requires
        chain(node, keys),
        0 <= i <= pieces.len(),
    ensures
        route_from(node, pieces, i, captured) == match (lookup(node, keys), match_pieces(keys, pieces, i, captured)) {
            (Some(h), Some(c)) => Some((h, c)),
            _ => None,
        },
    decreases pieces.len() - i,
{
    let c = node.children@;
    if i == pieces.len() {
        if keys.len() == 0 {
        } else {
        }
    } else if pieces[i].len() == 0 {
        lemma_route_chain(node, keys, pieces, i + 1, captured);
    } else {
        let seg = pieces[i];
        if keys.len() == 0 {
            assert(!exists|j: int| first_match_child(c, seg, j));
        } else if c.len() == 0 {
            assert(!exists|j: int| first_match_child(c, seg, j));
            assert(!exists|j: int| first_key_child(c, keys[0], j));
        } else {
            assert(first_key_child(c, keys[0], 0));
            lemma_first_key_unique(c, keys[0], 0);
            let child = c[0].1;
            assert(lookup(node, keys) == lookup(child, keys.drop_first()));
            if c[0].0.matches(seg) {
                assert(first_match_child(c, seg, 0));
                lemma_first_match_unique(c, seg, 0);
                match c[0].0 {
                    Pattern::Exact(s) => {
                        lemma_route_chain(child, keys.drop_first(), pieces, i + 1, captured);
                    },
                    Pattern::Capture => {
                        lemma_route_chain(child, keys.drop_first(), pieces, i + 1, captured.push(seg));
                    },
                    Pattern::Collect => {
                        if keys.len() == 1 {
                            assert(keys.drop_first() =~= Seq::<PatternKey>::empty());
                        } else {
                            assert(chain(child, keys.drop_first()));
                            assert(child.handler is None) by {
                                reveal_with_fuel(chain, 2);
                            }
                        }
                    },
                }
            } else {
                assert(!exists|j: int| first_match_child(c, seg, j)) by {
                    if exists|j: int| first_match_child(c, seg, j) {
                        let j = choose|j: int| first_match_child(c, seg, j);
                        assert(j == 0);
                    }
                }
            }
        }
    }
}

/// A path piece that is empty or stands for its own text (no `:` prefix, not `*`).
pub open spec fn plain_piece(p: Seq<char>) -> bool {
    p.len() == 0 || key_of(p) == PatternKey::Exact(p)
}

/// Every segment of the path is plain text.
pub open spec fn literal_path(path: Seq<char>) -> bool {
    forall|t: int| 0 <= t < split_on(path, '/').len() ==> plain_piece(#[trigger] split_on(path, '/')[t])
}

proof fn lemma_nonempty_prepend(p: Seq<char>, rest: Seq<Seq<char>>)
    ensures
        nonempty_pieces(seq![p] + rest) == if p.len() > 0 {
            seq![p] + nonempty_pieces(rest)
        } else {
            nonempty_pieces(rest)
        },
    decreases rest.len(),
{
    let l = seq![p] + rest;
    if rest.len() == 0 {
        assert(l =~= seq![p]);
        assert(l.drop_last() =~= Seq::<Seq<char>>::empty());
        assert(nonempty_pieces(Seq::<Seq<char>>::empty()) == Seq::<Seq<char>>::empty());
        assert(nonempty_pieces(rest) == Seq::<Seq<char>>::empty());
        if p.len() > 0 {
            assert(nonempty_pieces(l) == Seq::<Seq<char>>::empty().push(p));
            assert(seq![p] + nonempty_pieces(rest) =~= Seq::<Seq<char>>::empty().push(p));
        } else {
            assert(nonempty_pieces(l) == Seq::<Seq<char>>::empty());
        }
    } else {
        let rd = rest.drop_last();
        let y = rest.last();
        lemma_nonempty_prepend(p, rd);
        assert(l.drop_last() =~= seq![p] + rd);
        assert(l.last() == y);
        let nl = nonempty_pieces(seq![p] + rd);
        assert(nonempty_pieces(l) == if y.len() > 0 { nl.push(y) } else { nl });
        assert(nonempty_pieces(rest) == if y.len() > 0 {
            nonempty_pieces(rd).push(y)
        } else {
            nonempty_pieces(rd)
        });
        if p.len() > 0 {
            assert((seq![p] + nonempty_pieces(rd)).push(y) =~= seq![p] + nonempty_pieces(rd).push(y));
        }
    }
}

proof fn lemma_route_literal<S>(node: Node<S>, pieces: Seq<Seq<char>>, i: int, captured: Seq<Seq<char>>)
    requires
        literal_tree(node),
        0 <= i <= pieces.len(),
        forall|t: int| 0 <= t < pieces.len() ==> plain_piece(#[trigger] pieces[t]),
    ensures
        route_from(node, pieces, i, captured) == match lookup(
            node,
            keys_of(nonempty_pieces(pieces.skip(i))),
        ) {
            Some(h) => Some((h, captured)),
            None => None,
        },
    decreases pieces.len() - i,
{
    if i == pieces.len() {
        assert(pieces.skip(i) =~= Seq::<Seq<char>>::empty());
        assert(keys_of(nonempty_pieces(pieces.skip(i))) =~= Seq::<PatternKey>::empty());
    } else {
        let seg = pieces[i];
        assert(pieces.skip(i) =~= seq![seg] + pieces.skip(i + 1));
        lemma_nonempty_prepend(seg, pieces.skip(i + 1));
        lemma_route_literal(node, pieces, i + 1, captured);
        if seg.len() > 0 {
            let rest_keys = keys_of(nonempty_pieces(pieces.skip(i + 1)));
            let keys = keys_of(nonempty_pieces(pieces.skip(i)));
            assert(keys =~= seq![PatternKey::Exact(seg)] + rest_keys);
            assert(keys.drop_first() =~= rest_keys);
            let c = node.children@;
            assert(literal_node(node)) by {
                assert(node_at(node, Seq::<PatternKey>::empty()) == Some(node));
            }
            assert forall|t: int| 0 <= t < c.len() implies ((#[trigger] c[t]).0.matches(seg) <==> c[t].0.key()
                == PatternKey::Exact(seg)) by {
                assert(c[t].0 is Exact);
            }
            if exists|j: int| first_key_child(c, PatternKey::Exact(seg), j) {
                let j = choose|j: int| first_key_child(c, PatternKey::Exact(seg), j);
                assert forall|t: int| 0 <= t < j implies !(#[trigger] c[t]).0.matches(seg) by {
                    assert(c[t].0.key() != PatternKey::Exact(seg));
                }
                assert(first_match_child(c, seg, j));
                lemma_first_match_unique(c, seg, j);
                lemma_first_key_unique(c, PatternKey::Exact(seg), j);
                let child = c[j].1;
                assert(literal_tree(child)) by {
                    assert forall|q: Seq<PatternKey>| #[trigger] node_at(child, q) is Some implies literal_node(
                        node_at(child, q)->Some_0,
                    ) by {
                        let kq = seq![PatternKey::Exact(seg)] + q;
                        assert(kq.drop_first() =~= q);
                        assert(node_at(node, kq) == node_at(child, q));
                    }
                }
                assert(c[j].0 is Exact);
                lemma_route_literal(child, pieces, i + 1, captured);
            } else {
                assert(!exists|j: int| first_match_child(c, seg, j)) by {
                    if exists|j: int| first_match_child(c, seg, j) {
                        let j = choose|j: int| first_match_child(c, seg, j);
                        assert forall|t: int| 0 <= t < j implies (#[trigger] c[t]).0.key()
                            != PatternKey::Exact(seg) by {
                            assert(!c[t].0.matches(seg));
                        }
                        assert(first_key_child(c, PatternKey::Exact(seg), j));
                    }
                }
            }
        }
    }
}

/// A node with no handler and no child.
spec fn fresh<S>(n: Node<S>) -> bool {
    n.handler is None && n.children@.len() == 0
}

/// `n` holds nothing but the way along `keys`, one node per pattern, with handler `h` at
/// its end.
spec fn built<S>(n: Node<S>, keys: Seq<PatternKey>, h: Map<Seq<char>, S>) -> bool
    decreases keys.len(),
{
    if keys.len() == 0 {
        handler_view(n.handler) == Some(h) && n.children@.len() == 0
    } else {
        &&& n.handler is None
        &&& n.children@.len() == 1
        &&& n.children@[0].0.key() == keys[0]
        &&& built(n.children@[0].1, keys.drop_first(), h)
    }
}

/// `new` is `old` with handler `h` bound under `keys`: the nodes on the way are kept in place
/// (a missing one is added after its siblings) and nothing else changes.
spec fn grown<S>(old: Node<S>, new: Node<S>, keys: Seq<PatternKey>, h: Map<Seq<char>, S>) -> bool
    decreases keys.len(),
{
    let oc = old.children@;
    let nc = new.children@;
    if keys.len() == 0 {
        handler_view(new.handler) == Some(h) && nc == oc
    } else {
        &&& new.handler == old.handler
        &&& match child_for_key(oc, keys[0]) {
            Some(j) => {
                &&& nc.len() == oc.len()
                &&& nc[j].0 == oc[j].0
                &&& forall|t: int| 0 <= t < oc.len() && t != j ==> #[trigger] nc[t] == oc[t]
                &&& grown(oc[j].1, nc[j].1, keys.drop_first(), h)
            },
            None => {
                &&& nc.len() == oc.len() + 1
                &&& forall|t: int| 0 <= t < oc.len() ==> #[trigger] nc[t] == oc[t]
                &&& nc[oc.len() as int].0.key() == keys[0]
                &&& built(nc[oc.len() as int].1, keys.drop_first(), h)
            },
        }
    }
}

proof fn lemma_fresh_grown<S>(f: Node<S>, n: Node<S>, keys: Seq<PatternKey>, h: Map<Seq<char>, S>)
    requires
        fresh(f),
        grown(f, n, keys, h),
    ensures
        built(n, keys, h),
{
    if keys.len() > 0 {
        assert(!exists|j: int| first_key_child(f.children@, keys[0], j));
    }
}

/// Binds `h` under the patterns of `segs[i..]`, creating the nodes that are missing.
fn insert_at<S>(node: &mut Node<S>, segs: &Vec<Vec<char>>, i: usize, h: Handler<S>)
    requires
        i <= segs@.len(),
        forall|t: int| 0 <= t < segs@.len() ==> (#[trigger] segs@[t])@.len() > 0,
    ensures
        forall|keys: Seq<PatternKey>|
            #[trigger] lookup(*final(node), keys) == if keys == keys_of(views(segs@).skip(i as int)) {
                Some(h@)
            } else {
                lookup(*old(node), keys)
            },
        literal_tree(*old(node)) && all_exact(keys_of(views(segs@).skip(i as int)))
            ==> literal_tree(*final(node)),
        chain(*old(node), keys_of(views(segs@).skip(i as int))) ==> chain(
            *final(node),
            keys_of(views(segs@).skip(i as int)),
        ),
        grown(*old(node), *final(node), keys_of(views(segs@).skip(i as int)), h@),
    decreases segs@.len() - i,
{
    let ghost target = keys_of(views(segs@).skip(i as int));
    if i == segs.len() {
        node.handler = Some(h);
        assert forall|keys: Seq<PatternKey>|
            #[trigger] lookup(*node, keys) == if keys == target {
                Some(h@)
            } else {
                lookup(*old(node), keys)
            } by {
            if keys.len() == 0 {
                assert(keys =~= target);
            } else {
                assert(keys != target);
            }
        }
        assert(literal_tree(*old(node)) ==> literal_tree(*node)) by {
            if literal_tree(*old(node)) {
                assert forall|keys: Seq<PatternKey>| #[trigger] node_at(*node, keys) is Some
                    implies literal_node(node_at(*node, keys)->Some_0) by {
                    assert(node_at(*old(node), keys) is Some);
                    if keys.len() == 0 {
                        assert(node_at(*old(node), keys) == Some(*old(node)));
                    }
                }
            }
        }
        return;
    }
    let seg = &segs[i];
    let ghost k = key_of(seg@);
    let ghost old_c = node.children@;
    let mut j: usize = 0;
    let n = node.children.len();
    while j < n
        invariant
            n == node.children@.len(),
            node.children@ == old_c,
            j <= n,
            k == key_of(seg@),
            forall|t: int| 0 <= t < j ==> (#[trigger] old_c[t]).0.key() != k,
        ensures
            j <= n,
            node.children@ == old_c,
            forall|t: int| 0 <= t < j ==> (#[trigger] old_c[t]).0.key() != k,
            j < n ==> old_c[j as int].0.key() == k,
        decreases n - j,
    {
        if node.children[j].0.exact(seg) {
            break;
        }
        j = j + 1;
    }
    if j == n {
        let p = Pattern::new(seg);
        node.children.push((p, Node::new()));
    }
    let ghost mid_c = node.children@;
    assert(first_key_child(mid_c, k, j as int));
    let (p, mut child) = node.children.remove(j);
    let ghost child_old = child;
    insert_at(&mut child, segs, i + 1, h);
    node.children.insert(j, (p, child));
    let ghost new_c = node.children@;
    proof {
        assert(new_c =~= mid_c.update(j as int, (p, child)));
        assert(views(segs@).skip(i as int) =~= seq![seg@] + views(segs@).skip(i + 1));
        assert(target =~= seq![k] + keys_of(views(segs@).skip(i + 1)));
        assert(first_key_child(new_c, k, j as int));
        lemma_first_key_unique(new_c, k, j as int);
        if j == n {
            assert forall|q: Seq<PatternKey>| #[trigger] lookup(child_old, q) is None by {
                lemma_lookup_new_node(child_old, q);
            }
        } else {
            lemma_first_key_unique(old_c, k, j as int);
        }
        assert forall|keys: Seq<PatternKey>|
            #[trigger] lookup(*node, keys) == if keys == target {
                Some(h@)
            } else {
                lookup(*old(node), keys)
            } by {
            if keys.len() == 0 {
                assert(keys != target);
                assert(node.handler == old(node).handler);
            } else if keys[0] == k {
                let rest = keys.drop_first();
                let tail = keys_of(views(segs@).skip(i + 1));
                assert(keys =~= seq![k] + rest);
                assert(lookup(*node, keys) == lookup(child, rest));
                assert(lookup(child, rest) == if rest == tail { Some(h@) } else { lookup(child_old, rest) });
                if rest == tail {
                    assert(keys =~= target);
                } else {
                    assert(keys != target) by {
                        if keys == target {
                            assert(rest =~= target.drop_first());
                            assert(tail =~= target.drop_first());
                        }
                    }
                }
                if j == n {
                    assert(!exists|f: int| first_key_child(old_c, k, f)) by {
                        if exists|f: int| first_key_child(old_c, k, f) {
                            let f = choose|f: int| first_key_child(old_c, k, f);
                            assert(old_c[f].0.key() != k);
                        }
                    }
                    assert(lookup(*old(node), keys) is None);
                    assert(lookup(child_old, keys.drop_first()) is None);
                } else {
                    assert(old_c[j as int] == (p, child_old));
                }
            } else {
                let k2 = keys[0];
                assert(keys != target);
                assert forall|t: int|
                    0 <= t < new_c.len() implies ((#[trigger] new_c[t]).0.key() == k2 <==> (t
                    < old_c.len() && old_c[t].0.key() == k2)) by {
                    if t < old_c.len() && t != j {
                        assert(new_c[t] == old_c[t]);
                    }
                    if t == j && j < n {
                        assert(old_c[t].0 == p);
                    }
                }
                lemma_first_key_same(old_c, new_c, k2);
                match child_for_key(old_c, k2) {
                    Some(f) => {
                        assert(first_key_child(old_c, k2, f));
                        assert(f != j);
                        assert(new_c[f] == old_c[f]);
                    },
                    None => {},
                }
            }
        }
        assert(grown(*old(node), *node, target, h@)) by {
            let tail = keys_of(views(segs@).skip(i + 1));
            assert(target.drop_first() =~= tail);
            assert(target[0] == k);
            assert(new_c[j as int] == (p, child));
            if j == n {
                assert(!exists|f: int| first_key_child(old_c, k, f)) by {
                    if exists|f: int| first_key_child(old_c, k, f) {
                        let f = choose|f: int| first_key_child(old_c, k, f);
                        assert(old_c[f].0.key() != k);
                    }
                }
                assert(forall|t: int| 0 <= t < old_c.len() ==> #[trigger] new_c[t] == old_c[t]);
                lemma_fresh_grown(child_old, child, tail, h@);
            } else {
                assert(old_c[j as int] == (p, child_old));
                assert(forall|t: int| 0 <= t < old_c.len() && t != j ==> #[trigger] new_c[t] == old_c[t]);
            }
        }
        if chain(*old(node), target) {
            let tail = keys_of(views(segs@).skip(i + 1));
            assert(target.drop_first() =~= tail);
            assert(j == 0) by {
                if n == 1 {
                    assert(old_c[0].0.key() == k);
                }
            }
            assert(new_c.len() == 1);
            if j == n {
                lemma_chain_new_node(child_old, tail);
            } else {
                assert(old_c[0] == (p, child_old));
            }
            assert(chain(child, tail));
            assert(new_c[0].0.key() == k);
            assert(node.handler == old(node).handler);
        }
        if literal_tree(*old(node)) && all_exact(target) {
            assert(target[0] == k);
            assert(all_exact(keys_of(views(segs@).skip(i + 1)))) by {
                let tail = keys_of(views(segs@).skip(i + 1));
                assert forall|t: int| 0 <= t < tail.len() implies (#[trigger] tail[t]) is Exact by {
                    assert(tail[t] == target[t + 1]);
                }
            }
            if j == n {
                lemma_literal_new_node(child_old);
            } else {
                assert forall|q: Seq<PatternKey>| #[trigger] node_at(child_old, q) is Some
                    implies literal_node(node_at(child_old, q)->Some_0) by {
                    let kq = seq![k] + q;
                    assert(kq.drop_first() =~= q);
                    assert(node_at(*old(node), kq) == node_at(child_old, q));
                }
            }
            assert(literal_tree(child));
            assert(literal_node(*old(node))) by {
                assert(node_at(*old(node), Seq::<PatternKey>::empty()) == Some(*old(node)));
            }
            assert forall|keys: Seq<PatternKey>| #[trigger] node_at(*node, keys) is Some
                implies literal_node(node_at(*node, keys)->Some_0) by {
                if keys.len() == 0 {
                    assert forall|t: int| 0 <= t < new_c.len() implies (#[trigger] new_c[t]).0 is Exact by {
                        if t == j {
                            assert(p.key() == k);
                        } else {
                            assert(new_c[t] == old_c[t]);
                        }
                    }
                } else if keys[0] == k {
                    let rest = keys.drop_first();
                    assert(node_at(*node, keys) == node_at(child, rest));
                } else {
                    let k2 = keys[0];
                    assert forall|t: int|
                        0 <= t < new_c.len() implies ((#[trigger] new_c[t]).0.key() == k2 <==> (t
                        < old_c.len() && old_c[t].0.key() == k2)) by {
                        if t < old_c.len() && t != j {
                            assert(new_c[t] == old_c[t]);
                        }
                        if t == j && j < n {
                            assert(old_c[t].0 == p);
                        }
                    }
                    lemma_first_key_same(old_c, new_c, k2);
                    match child_for_key(old_c, k2) {
                        Some(f) => {
                            assert(first_key_child(old_c, k2, f));
                            assert(new_c[f] == old_c[f]);
                            assert(node_at(*node, keys) == node_at(*old(node), keys));
                        },
                        None => {},
                    }
                }
            }
        }
    }
}

/// A router: routes from path patterns to handlers, and the system to run when no route
/// or method matches.
pub struct Router<S> {
    root: Node<S>,
    fallback: Option<S>,
}

impl<S> Router<S> {
    /// The routes, from the patterns of a route path to the handler registered for it.
    pub closed spec fn view(&self) -> Map<Seq<PatternKey>, Map<Seq<char>, S>> {
        Map::new(
            |keys: Seq<PatternKey>| lookup(self.root, keys) is Some,
            |keys: Seq<PatternKey>| lookup(self.root, keys)->Some_0,
        )
    }

    /// The handler that routing `path` reaches and the url parts it captures.
    pub closed spec fn routes_to(&self, path: Seq<char>) -> Option<(Map<Seq<char>, S>, Seq<Seq<char>>)> {
        route_from(self.root, split_on(path, '/'), 0, seq![])
    }

    /// The patterns of the route nodes that routing `path` steps through, up to the node it
    /// ends on.
    pub closed spec fn route_walk(&self, path: Seq<char>) -> Seq<PatternKey> {
        walk(self.root, split_on(path, '/'), 0)
    }

    /// Whether routing `path` steps into a `*` route, which collects the rest of the path.
    pub closed spec fn reaches_collect(&self, path: Seq<char>) -> bool {
        route_collects(self.root, split_on(path, '/'), 0)
    }

    /// The fallback system; `None` stands for the built-in one, which answers 404.
    pub closed spec fn fallback_system(&self) -> Option<S> {
        self.fallback
    }

    /// Every route of this router is made of plain text segments only.
    pub closed spec fn literal_only(&self) -> bool {
        literal_tree(self.root)
    }

    /// The route tree holds nothing but the way to the route `keys`: no route other than
    /// `keys` is registered, and no other pattern was ever added.
    pub closed spec fn single_route(&self, keys: Seq<PatternKey>) -> bool {
        chain(self.root, keys)
    }

    /// This router is `before` with handler `h` bound under the route `keys`: the nodes on
    /// the way are kept in place, a missing one is added after its siblings, and nothing
    /// else of the route tree changes.
    pub closed spec fn added_to(&self, before: &Self, keys: Seq<PatternKey>, h: Map<Seq<char>, S>) -> bool {
        grown(before.root, self.root, keys, h)
    }

    /// A router with no route and the built-in fallback.
    pub fn new() -> (r: Self)
        ensures
            r@ == Map::<Seq<PatternKey>, Map<Seq<char>, S>>::empty(),
            r.fallback_system() is None,
            r.literal_only(),
            forall|keys: Seq<PatternKey>| #[trigger] r.single_route(keys),
    {
        let r = Router { root: Node::new(), fallback: None };
        proof {
            lemma_literal_new_node(r.root);
            assert forall|keys: Seq<PatternKey>| #[trigger] r.single_route(keys) by {
                lemma_chain_new_node(r.root, keys);
            }
        }
        assert(r@ =~= Map::<Seq<PatternKey>, Map<Seq<char>, S>>::empty()) by {
            assert forall|keys: Seq<PatternKey>| !(#[trigger] lookup(r.root, keys) is Some) by {
                lemma_lookup_new_node(r.root, keys);
            }
        }
        r
    }

    /// Registers a handler for the route `path`; a route with the same patterns is replaced.
    /// Segments are separated by `/`; `:name` captures one segment and `*` the rest of the path.
    pub fn add_route<H: InsertHandler<S>>(self, path: &str, handler: H) -> (r: Self)
        ensures
            r@ == self@.insert(route_keys(path@), apply_pairs(Map::empty(), handler.bindings())),
            r.fallback_system() == self.fallback_system(),
            self.literal_only() && all_exact(route_keys(path@)) ==> r.literal_only(),
            self.single_route(route_keys(path@)) ==> r.single_route(route_keys(path@)),
            r.added_to(&self, route_keys(path@), apply_pairs(Map::empty(), handler.bindings())),
    {
        let mut h = Handler::new();
        handler.insert_to_handler(&mut h);
        let cs = str_chars(path);
        let pieces = split_chars(&cs, '/');
        let segs = nonempty_segments(&pieces);
        let mut me = self;
        let ghost old_root = me.root;
        insert_at(&mut me.root, &segs, 0, h);
        proof {
            assert(views(segs@).skip(0) == views(segs@));
            let target = route_keys(path@);
            assert(me@ =~= self@.insert(target, h@)) by {
                assert forall|keys: Seq<PatternKey>| #[trigger] me@.contains_key(keys)
                    == self@.insert(target, h@).contains_key(keys) by {
                    assert(lookup(me.root, keys) == if keys == target {
                        Some(h@)
                    } else {
                        lookup(old_root, keys)
                    });
                }
                assert forall|keys: Seq<PatternKey>| #[trigger] me@.contains_key(keys) implies me@[keys]
                    == self@.insert(target, h@)[keys] by {
                    assert(lookup(me.root, keys) == if keys == target {
                        Some(h@)
                    } else {
                        lookup(old_root, keys)
                    });
                }
            }
        }
        me
    }

    /// Sets the system run when no route or no method of a route matches.
    pub fn fallback(self, system: S) -> (r: Self)
        ensures
            r@ == self@,
            forall|path: Seq<char>| r.routes_to(path) == self.routes_to(path),
            r.fallback_system() == Some(system),
            r.literal_only() == self.literal_only(),
            forall|keys: Seq<PatternKey>| #[trigger] r.single_route(keys) == self.single_route(keys),
    {
        Router { root: self.root, fallback: Some(system) }
    }

    /// The fallback system; `None` when the built-in one is in use.
    pub fn get_fallback(&self) -> (r: Option<&S>)
        ensures
            match (r, self.fallback_system()) {
                (Some(a), Some(b)) => *a == b,
                (None, None) => true,
                _ => false,
            },
    {
        match &self.fallback {
            Some(s) => Some(s),
            None => None,
        }
    }

    /// Routes a request path: the handler of the route it reaches and the url parts it
    /// captures, or `None`.
    pub fn route(&self, path: &str) -> (r: Option<(&Handler<S>, Captures)>)
        ensures
            match (r, self.routes_to(path@)) {
                (Some((h, caps)), Some((hv, cv))) => h@ == hv && caps@.map_values(
                    |s: String| s@,
                ) == cv,
                (None, None) => true,
                _ => false,
            },
    {
        let cs = str_chars(path);
        let pieces = split_chars(&cs, '/');
        let ghost ps = views(pieces@);
        let mut captured: Vec<String> = Vec::new();
        let mut cursor: &Node<S> = &self.root;
        let mut i: usize = 0;
        assert(string_views(captured@) =~= seq![]);
        while i < pieces.len()
            invariant
                i <= pieces@.len(),
                ps == views(pieces@),
                ps == split_on(path@, '/'),
                self.routes_to(path@) == route_from(*cursor, ps, i as int, string_views(captured@)),
            decreases pieces@.len() - i,
        {
            assert(ps[i as int] == pieces@[i as int]@);
            if pieces[i].len() == 0 {
                i = i + 1;
                continue;
            }
            let seg = &pieces[i];
            let mut j: usize = 0;
            let n = cursor.children.len();
            while j < n
                invariant
                    n == cursor.children@.len(),
                    j <= n,
                    forall|t: int| 0 <= t < j ==> !(#[trigger] cursor.children@[t]).0.matches(seg@),
                ensures
                    j <= n,
                    forall|t: int| 0 <= t < j ==> !(#[trigger] cursor.children@[t]).0.matches(seg@),
                    j < n ==> cursor.children@[j as int].0.matches(seg@),
                decreases n - j,
            {
                if cursor.children[j].0.matches_segment(seg) {
                    break;
                }
                j = j + 1;
            }
            if j == n {
                assert(!exists|f: int| first_match_child(cursor.children@, seg@, f)) by {
                    if exists|f: int| first_match_child(cursor.children@, seg@, f) {
                        let f = choose|f: int| first_match_child(cursor.children@, seg@, f);
                        assert(!cursor.children@[f].0.matches(seg@));
                    }
                }
                return None;
            }
            proof {
                assert(first_match_child(cursor.children@, seg@, j as int));
                lemma_first_match_unique(cursor.children@, seg@, j as int);
            }
            let child = &cursor.children[j].1;
            match &cursor.children[j].0 {
                Pattern::Exact(_) => {
                    cursor = child;
                },
                Pattern::Capture => {
                    let ghost old_cap = captured@;
                    captured.push(string_from_chars(seg));
                    assert(string_views(captured@) =~= string_views(old_cap).push(seg@));
                    cursor = child;
                },
                Pattern::Collect => {
                    let ghost base = string_views(captured@);
                    let mut k: usize = i;
                    while k < pieces.len()
                        invariant
                            i <= k <= pieces@.len(),
                            ps == views(pieces@),
                            string_views(captured@) == base + ps.subrange(i as int, k as int),
                        decreases pieces@.len() - k,
                    {
                        let ghost old_cap = captured@;
                        captured.push(string_from_chars(&pieces[k]));
                        assert(string_views(captured@) =~= string_views(old_cap).push(ps[k as int]));
                        assert(ps.subrange(i as int, k + 1) =~= ps.subrange(i as int, k as int).push(
                            ps[k as int],
                        ));
                        k = k + 1;
                    }
                    return match &child.handler {
                        Some(h) => Some((h, to_captures(captured))),
                        None => None,
                    };
                },
            }
            i = i + 1;
        }
        match &cursor.handler {
            Some(h) => Some((h, to_captures(captured))),
            None => None,
        }
    }
}

/// Routing law: in a router whose routes are all plain text, a path made of plain text
/// segments reaches exactly the handler registered for its segments (empty segments are
/// ignored), and captures nothing.
pub proof fn lemma_literal_routing<S>(r: &Router<S>, path: Seq<char>)
    requires
        r.literal_only(),
        literal_path(path),
    ensures
        r.routes_to(path) == if r@.contains_key(route_keys(path)) {
            Some((r@[route_keys(path)], Seq::<Seq<char>>::empty()))
        } else {
            None
        },
{
    let pieces = split_on(path, '/');
    assert(pieces.skip(0) =~= pieces);
    lemma_route_literal(r.root, pieces, 0, Seq::<Seq<char>>::empty());
}

/// Routing law for a router that holds one route: a request path reaches that route's
/// handler exactly when it fits the route's patterns, and the url parts captured are the
/// pieces under its `:name` segments, in order, followed for a final `*` by the rest of the
/// path. A path that does not fit, or a router with no route, reaches nothing.
pub proof fn lemma_single_route_routing<S>(r: &Router<S>, keys: Seq<PatternKey>, path: Seq<char>)
    requires
        r.single_route(keys),
    ensures
        r.routes_to(path) == match path_captures(keys, path) {
            Some(c) => if r@.contains_key(keys) {
                Some((r@[keys], c))
            } else {
                None
            },
            None => None,
        },
{
    lemma_route_chain(r.root, keys, split_on(path, '/'), 0, Seq::<Seq<char>>::empty());
}

/// Routing over the non-empty pieces `n` alone, having captured `captured`.
spec fn route_nonempty<S>(node: Node<S>, n: Seq<Seq<char>>, captured: Seq<Seq<char>>) -> Option<
    (Map<Seq<char>, S>, Seq<Seq<char>>),
>
    decreases n.len(),
{
    if n.len() == 0 {
        match node.handler {
            Some(h) => Some((h@, captured)),
            None => None,
        }
    } else {
        match match_child(node.children@, n[0]) {
            None => None,
            Some(j) => {
                let child = node.children@[j].1;
                match node.children@[j].0 {
                    Pattern::Exact(_) => route_nonempty(child, n.drop_first(), captured),
                    Pattern::Capture => route_nonempty(child, n.drop_first(), captured.push(n[0])),
                    Pattern::Collect => match child.handler {
                        Some(h) => Some((h@, captured + n)),
                        None => None,
                    },
                }
            },
        }
    }
}

/// A routing outcome with the empty pieces left out of its captures.
spec fn without_empty<S>(r: Option<(Map<Seq<char>, S>, Seq<Seq<char>>)>) -> Option<
    (Map<Seq<char>, S>, Seq<Seq<char>>),
> {
    match r {
        Some((h, c)) => Some((h, nonempty_pieces(c))),
        None => None,
    }
}

proof fn lemma_nonempty_concat(a: Seq<Seq<char>>, b: Seq<Seq<char>>)
    ensures
        nonempty_pieces(a + b) == nonempty_pieces(a) + nonempty_pieces(b),
    decreases b.len(),
{
    if b.len() == 0 {
        assert(a + b =~= a);
        assert(nonempty_pieces(a) + nonempty_pieces(b) =~= nonempty_pieces(a));
    } else {
        lemma_nonempty_concat(a, b.drop_last());
        assert((a + b).drop_last() =~= a + b.drop_last());
        assert((a + b).last() == b.last());
        if b.last().len() > 0 {
            assert(nonempty_pieces(a) + nonempty_pieces(b.drop_last()).push(b.last()) =~= (
            nonempty_pieces(a) + nonempty_pieces(b.drop_last())).push(b.last()));
        }
    }
}

proof fn lemma_route_nonempty<S>(node: Node<S>, pieces: Seq<Seq<char>>, i: int, captured: Seq<Seq<char>>)
    requires
        0 <= i <= pieces.len(),
    ensures
        without_empty(route_from(node, pieces, i, captured)) == route_nonempty(
            node,
            nonempty_pieces(pieces.skip(i)),
            nonempty_pieces(captured),
        ),
    decreases pieces.len() - i,
{
    if i == pieces.len() {
        assert(pieces.skip(i) =~= Seq::<Seq<char>>::empty());
    } else {
        let seg = pieces[i];
        assert(pieces.skip(i) =~= seq![seg] + pieces.skip(i + 1));
        lemma_nonempty_prepend(seg, pieces.skip(i + 1));
        let n = nonempty_pieces(pieces.skip(i));
        if seg.len() == 0 {
            lemma_route_nonempty(node, pieces, i + 1, captured);
        } else {
            assert(n[0] == seg);
            assert(n.drop_first() =~= nonempty_pieces(pieces.skip(i + 1)));
            match match_child(node.children@, seg) {
                None => {},
                Some(j) => {
                    let child = node.children@[j].1;
                    match node.children@[j].0 {
                        Pattern::Exact(_) => {
                            lemma_route_nonempty(child, pieces, i + 1, captured);
                        },
                        Pattern::Capture => {
                            lemma_route_nonempty(child, pieces, i + 1, captured.push(seg));
                            assert(captured.push(seg).drop_last() =~= captured);
                        },
                        Pattern::Collect => {
                            assert(pieces.subrange(i, pieces.len() as int) =~= pieces.skip(i));
                            lemma_nonempty_concat(captured, pieces.skip(i));
                        },
                    }
                },
            }
        }
    }
}

/// Whether routing from `node` on `pieces[i..]` steps into a `*` node.
spec fn route_collects<S>(node: Node<S>, pieces: Seq<Seq<char>>, i: int) -> bool
    decreases pieces.len() - i,
{
    if i < 0 || i >= pieces.len() {
        false
    } else if pieces[i].len() == 0 {
        route_collects(node, pieces, i + 1)
    } else {
        match match_child(node.children@, pieces[i]) {
            None => false,
            Some(j) => match node.children@[j].0 {
                Pattern::Collect => true,
                _ => route_collects(node.children@[j].1, pieces, i + 1),
            },
        }
    }
}

/// Whether routing from `node` over the non-empty pieces `n` steps into a `*` node.
spec fn collects_nonempty<S>(node: Node<S>, n: Seq<Seq<char>>) -> bool
    decreases n.len(),
{
    if n.len() == 0 {
        false
    } else {
        match match_child(node.children@, n[0]) {
            None => false,
            Some(j) => match node.children@[j].0 {
                Pattern::Collect => true,
                _ => collects_nonempty(node.children@[j].1, n.drop_first()),
            },
        }
    }
}

proof fn lemma_route_without_collect<S>(node: Node<S>, pieces: Seq<Seq<char>>, i: int, captured: Seq<Seq<char>>)
    requires
        0 <= i <= pieces.len(),
    ensures
        route_collects(node, pieces, i) == collects_nonempty(node, nonempty_pieces(pieces.skip(i))),
        !route_collects(node, pieces, i) ==> route_from(node, pieces, i, captured) == route_nonempty(
            node,
            nonempty_pieces(pieces.skip(i)),
            captured,
        ),
    decreases pieces.len() - i,
{
    if i == pieces.len() {
        assert(pieces.skip(i) =~= Seq::<Seq<char>>::empty());
    } else {
        let seg = pieces[i];
        assert(pieces.skip(i) =~= seq![seg] + pieces.skip(i + 1));
        lemma_nonempty_prepend(seg, pieces.skip(i + 1));
        let n = nonempty_pieces(pieces.skip(i));
        if seg.len() == 0 {
            lemma_route_without_collect(node, pieces, i + 1, captured);
        } else {
            assert(n[0] == seg);
            assert(n.drop_first() =~= nonempty_pieces(pieces.skip(i + 1)));
            match match_child(node.children@, seg) {
                None => {},
                Some(j) => {
                    let child = node.children@[j].1;
                    match node.children@[j].0 {
                        Pattern::Exact(_) => {
                            lemma_route_without_collect(child, pieces, i + 1, captured);
                        },
                        Pattern::Capture => {
                            lemma_route_without_collect(child, pieces, i + 1, captured.push(seg));
                        },
                        Pattern::Collect => {},
                    }
                },
            }
        }
    }
}

proof fn lemma_collects_in_walk<S>(node: Node<S>, pieces: Seq<Seq<char>>, i: int)
    requires
        0 <= i <= pieces.len(),
    ensures
        route_collects(node, pieces, i) == (walk(node, pieces, i).len() > 0 && walk(node, pieces, i).last()
            == PatternKey::Collect),
    decreases pieces.len() - i,
{
    if i < pieces.len() {
        let seg = pieces[i];
        if seg.len() == 0 {
            lemma_collects_in_walk(node, pieces, i + 1);
        } else {
            match match_child(node.children@, seg) {
                None => {},
                Some(j) => {
                    let child = node.children@[j].1;
                    match node.children@[j].0 {
                        Pattern::Collect => {},
                        _ => {
                            lemma_collects_in_walk(child, pieces, i + 1);
                            let w = walk(child, pieces, i + 1);
                            let k = node.children@[j].0.key();
                            assert(k != PatternKey::Collect);
                            if w.len() > 0 {
                                assert((seq![k] + w).last() == w.last());
                            } else {
                                assert(seq![k] + w =~= seq![k]);
                            }
                        },
                    }
                },
            }
        }
    }
}

/// Routing law: a path steps into a `*` route exactly when the last pattern routing steps
/// through is `*`.
pub proof fn lemma_collect_ends_walk<S>(r: &Router<S>, path: Seq<char>)
    ensures
        r.reaches_collect(path) == (r.route_walk(path).len() > 0 && r.route_walk(path).last()
            == PatternKey::Collect),
{
    let pp = split_on(path, '/');
    lemma_collects_in_walk(r.root, pp, 0);
}

/// Routing law: two request paths with the same non-empty segments (they differ only in
/// empty segments, such as doubled, leading or trailing `/`) reach the same handler or
/// both reach nothing, and step into a `*` route alike. When they do not step into a `*`
/// route they route alike in every respect, captures included; when they do, their captures
/// are the same once empty parts are left out (a `*` keeps the empty parts of the path it
/// collects).
pub proof fn lemma_empty_segments_ignored<S>(r: &Router<S>, p: Seq<char>, q: Seq<char>)
    requires
        nonempty_pieces(split_on(p, '/')) == nonempty_pieces(split_on(q, '/')),
    ensures
        match (r.routes_to(p), r.routes_to(q)) {
            (Some((h1, c1)), Some((h2, c2))) => h1 == h2 && nonempty_pieces(c1) == nonempty_pieces(c2),
            (None, None) => true,
            _ => false,
        },
        r.reaches_collect(p) == r.reaches_collect(q),
        !r.reaches_collect(p) ==> r.routes_to(p) == r.routes_to(q),
{
    let pp = split_on(p, '/');
    let qq = split_on(q, '/');
    assert(pp.skip(0) =~= pp);
    assert(qq.skip(0) =~= qq);
    lemma_route_nonempty(r.root, pp, 0, Seq::<Seq<char>>::empty());
    lemma_route_nonempty(r.root, qq, 0, Seq::<Seq<char>>::empty());
    lemma_route_without_collect(r.root, pp, 0, Seq::<Seq<char>>::empty());
    lemma_route_without_collect(r.root, qq, 0, Seq::<Seq<char>>::empty());
}

/// `a` and `b` hold the same handlers and child patterns, `d` levels down.
spec fn same_upto<S>(a: Node<S>, b: Node<S>, d: nat) -> bool
    decreases d,
{
    let ca = a.children@;
    let cb = b.children@;
    &&& handler_view(a.handler) == handler_view(b.handler)
    &&& ca.len() == cb.len()
    &&& forall|t: int| 0 <= t < ca.len() ==> (#[trigger] ca[t]).0.key() == cb[t].0.key()
    &&& d > 0 ==> forall|t: int| 0 <= t < ca.len() ==> same_upto((#[trigger] ca[t]).1, cb[t].1, (d - 1) as nat)
}

proof fn lemma_same_refl<S>(a: Node<S>, d: nat)
    ensures
        same_upto(a, a, d),
    decreases d,
{
    if d > 0 {
        assert forall|t: int| 0 <= t < a.children@.len() implies same_upto(
            (#[trigger] a.children@[t]).1,
            a.children@[t].1,
            (d - 1) as nat,
        ) by {
            lemma_same_refl(a.children@[t].1, (d - 1) as nat);
        }
    }
}

proof fn lemma_match_child_same<S>(ca: Seq<(Pattern, Node<S>)>, cb: Seq<(Pattern, Node<S>)>, seg: Seq<char>)
    requires
        ca.len() == cb.len(),
        forall|t: int| 0 <= t < ca.len() ==> (#[trigger] ca[t]).0.key() == cb[t].0.key(),
    ensures
        match_child(ca, seg) == match_child(cb, seg),
{
    assert forall|t: int| 0 <= t < ca.len() implies (#[trigger] ca[t]).0.matches(seg) == cb[t].0.matches(seg) by {
        assert(ca[t].0.key() == cb[t].0.key());
    }
    if exists|j: int| first_match_child(ca, seg, j) {
        let j = choose|j: int| first_match_child(ca, seg, j);
        assert forall|t: int| 0 <= t < j implies !(#[trigger] cb[t]).0.matches(seg) by {
            assert(!ca[t].0.matches(seg));
        }
        assert(first_match_child(cb, seg, j));
        lemma_first_match_unique(cb, seg, j);
    } else if exists|j: int| first_match_child(cb, seg, j) {
        let j = choose|j: int| first_match_child(cb, seg, j);
        assert forall|t: int| 0 <= t < j implies !(#[trigger] ca[t]).0.matches(seg) by {
            assert(!cb[t].0.matches(seg));
        }
        assert(first_match_child(ca, seg, j));
    }
}

proof fn lemma_route_same<S>(a: Node<S>, b: Node<S>, pieces: Seq<Seq<char>>, i: int, captured: Seq<Seq<char>>)
    requires
        0 <= i <= pieces.len(),
        forall|d: nat| #[trigger] same_upto(a, b, d),
    ensures
        route_from(a, pieces, i, captured) == route_from(b, pieces, i, captured),
    decreases pieces.len() - i,
{
    assert(same_upto(a, b, 1));
    if i < pieces.len() {
        let seg = pieces[i];
        if seg.len() == 0 {
            lemma_route_same(a, b, pieces, i + 1, captured);
        } else {
            let ca = a.children@;
            let cb = b.children@;
            lemma_match_child_same(ca, cb, seg);
            match match_child(ca, seg) {
                None => {},
                Some(j) => {
                    assert(ca[j].0.key() == cb[j].0.key());
                    assert forall|d: nat| #[trigger] same_upto(ca[j].1, cb[j].1, d) by {
                        assert(same_upto(a, b, d + 1));
                    }
                    assert(same_upto(ca[j].1, cb[j].1, 0));
                    match ca[j].0 {
                        Pattern::Exact(_) => {
                            lemma_route_same(ca[j].1, cb[j].1, pieces, i + 1, captured);
                        },
                        Pattern::Capture => {
                            lemma_route_same(ca[j].1, cb[j].1, pieces, i + 1, captured.push(seg));
                        },
                        Pattern::Collect => {},
                    }
                },
            }
        }
    }
}

proof fn lemma_built_same<S>(a: Node<S>, b: Node<S>, keys: Seq<PatternKey>, h: Map<Seq<char>, S>, d: nat)
    requires
        built(a, keys, h),
        built(b, keys, h),
    ensures
        same_upto(a, b, d),
    decreases keys.len(),
{
    if keys.len() > 0 && d > 0 {
        lemma_built_same(a.children@[0].1, b.children@[0].1, keys.drop_first(), h, (d - 1) as nat);
    }
}

proof fn lemma_built_regrown<S>(
    x: Node<S>,
    y: Node<S>,
    keys: Seq<PatternKey>,
    h1: Map<Seq<char>, S>,
    h2: Map<Seq<char>, S>,
)
    requires
        built(x, keys, h1),
        grown(x, y, keys, h2),
    ensures
        built(y, keys, h2),
    decreases keys.len(),
{
    if keys.len() > 0 {
        assert(first_key_child(x.children@, keys[0], 0));
        lemma_first_key_unique(x.children@, keys[0], 0);
        lemma_built_regrown(x.children@[0].1, y.children@[0].1, keys.drop_first(), h1, h2);
    }
}

proof fn lemma_first_key_found<S>(c: Seq<(Pattern, Node<S>)>, k: PatternKey, t: int)
    requires
        0 <= t < c.len(),
        c[t].0.key() == k,
    ensures
        child_for_key(c, k) is Some,
    decreases t,
{
    if exists|s: int| 0 <= s < t && (#[trigger] c[s]).0.key() == k {
        let s = choose|s: int| 0 <= s < t && (#[trigger] c[s]).0.key() == k;
        lemma_first_key_found(c, k, s);
    } else {
        assert(first_key_child(c, k, t));
    }
}

proof fn lemma_grown_twice<S>(
    ra: Node<S>,
    rb: Node<S>,
    a1: Node<S>,
    a: Node<S>,
    b: Node<S>,
    keys: Seq<PatternKey>,
    h1: Map<Seq<char>, S>,
    h2: Map<Seq<char>, S>,
    d: nat,
)
    requires
        forall|e: nat| #[trigger] same_upto(ra, rb, e),
        grown(ra, a1, keys, h1),
        grown(a1, a, keys, h2),
        grown(rb, b, keys, h2),
    ensures
        same_upto(a, b, d),
    decreases keys.len(),
{
    assert(same_upto(ra, rb, d));
    assert(same_upto(ra, rb, 0));
    let ca = ra.children@;
    let cb = rb.children@;
    if keys.len() > 0 {
        let k = keys[0];
        let rest = keys.drop_first();
        lemma_first_key_same(ca, cb, k);
        match child_for_key(ca, k) {
            Some(j) => {
                let c1 = a1.children@;
                assert forall|t: int| 0 <= t < c1.len() implies ((#[trigger] c1[t]).0.key() == k <==> (t
                    < ca.len() && ca[t].0.key() == k)) by {
                    if t != j {
                        assert(c1[t] == ca[t]);
                    }
                }
                lemma_first_key_same(ca, c1, k);
                let na = a.children@;
                let nb = b.children@;
                assert forall|t: int| 0 <= t < na.len() implies (#[trigger] na[t]).0.key() == nb[t].0.key() by {
                    if t != j {
                        assert(na[t] == c1[t]);
                        assert(c1[t] == ca[t]);
                        assert(nb[t] == cb[t]);
                        assert(ca[t].0.key() == cb[t].0.key());
                    }
                }
                if d > 0 {
                    assert forall|t: int| 0 <= t < na.len() implies same_upto(
                        (#[trigger] na[t]).1,
                        nb[t].1,
                        (d - 1) as nat,
                    ) by {
                        if t != j {
                            assert(na[t] == c1[t]);
                            assert(c1[t] == ca[t]);
                            assert(nb[t] == cb[t]);
                            assert(same_upto(ca[t].1, cb[t].1, (d - 1) as nat));
                        } else {
                            assert forall|e: nat| #[trigger] same_upto(ca[j].1, cb[j].1, e) by {
                                assert(same_upto(ra, rb, e + 1));
                            }
                            lemma_grown_twice(ca[j].1, cb[j].1, c1[j].1, na[j].1, nb[j].1, rest, h1, h2, (d - 1) as nat);
                        }
                    }
                }
            },
            None => {
                let c1 = a1.children@;
                let n = ca.len() as int;
                assert forall|t: int| 0 <= t < n implies (#[trigger] ca[t]).0.key() != k by {
                    if ca[t].0.key() == k {
                        lemma_first_key_found(ca, k, t);
                    }
                }
                assert forall|t: int| 0 <= t < n implies (#[trigger] c1[t]).0.key() != k by {
                    assert(c1[t] == ca[t]);
                }
                assert(first_key_child(c1, k, n));
                lemma_first_key_unique(c1, k, n);
                let na = a.children@;
                let nb = b.children@;
                assert forall|t: int| 0 <= t < na.len() implies (#[trigger] na[t]).0.key() == nb[t].0.key() by {
                    if t != n {
                        assert(na[t] == c1[t]);
                        assert(c1[t] == ca[t]);
                        assert(nb[t] == cb[t]);
                        assert(ca[t].0.key() == cb[t].0.key());
                    }
                }
                if d > 0 {
                    assert forall|t: int| 0 <= t < na.len() implies same_upto(
                        (#[trigger] na[t]).1,
                        nb[t].1,
                        (d - 1) as nat,
                    ) by {
                        if t != n {
                            assert(na[t] == c1[t]);
                            assert(c1[t] == ca[t]);
                            assert(nb[t] == cb[t]);
                            assert(same_upto(ca[t].1, cb[t].1, (d - 1) as nat));
                        } else {
                            lemma_built_regrown(c1[n].1, na[n].1, rest, h1, h2);
                            lemma_built_same(na[n].1, nb[n].1, rest, h2, (d - 1) as nat);
                        }
                    }
                }
            },
        }
    }
}

/// The patterns of the nodes that routing steps through from `node` on `pieces[i..]`, up to
/// the node it ends on (a `*` node ends it).
spec fn walk<S>(node: Node<S>, pieces: Seq<Seq<char>>, i: int) -> Seq<PatternKey>
    decreases pieces.len() - i,
{
    if i < 0 || i >= pieces.len() {
        seq![]
    } else if pieces[i].len() == 0 {
        walk(node, pieces, i + 1)
    } else {
        match match_child(node.children@, pieces[i]) {
            None => seq![],
            Some(j) => {
                let k = node.children@[j].0.key();
                match node.children@[j].0 {
                    Pattern::Collect => seq![k],
                    _ => seq![k] + walk(node.children@[j].1, pieces, i + 1),
                }
            },
        }
    }
}

proof fn lemma_key_matches(p: Pattern, q: Pattern, seg: Seq<char>)
    requires
        p.key() == q.key(),
    ensures
        p.matches(seg) == q.matches(seg),
{
}

/// The child that routing steps into is the first child with its pattern.
proof fn lemma_match_is_key_child<S>(c: Seq<(Pattern, Node<S>)>, seg: Seq<char>, j: int)
    requires
        first_match_child(c, seg, j),
    ensures
        child_for_key(c, c[j].0.key()) == Some(j),
{
    assert forall|t: int| 0 <= t < j implies (#[trigger] c[t]).0.key() != c[j].0.key() by {
        if c[t].0.key() == c[j].0.key() {
            lemma_key_matches(c[t].0, c[j].0, seg);
        }
    }
    assert(first_key_child(c, c[j].0.key(), j));
    lemma_first_key_unique(c, c[j].0.key(), j);
}

proof fn lemma_route_registered<S>(node: Node<S>, pieces: Seq<Seq<char>>, i: int, captured: Seq<Seq<char>>)
    requires
        0 <= i <= pieces.len(),
        route_from(node, pieces, i, captured) is Some,
    ensures
        lookup(node, walk(node, pieces, i)) == Some(route_from(node, pieces, i, captured)->Some_0.0),
    decreases pieces.len() - i,
{
    if i < pieces.len() {
        let seg = pieces[i];
        if seg.len() == 0 {
            lemma_route_registered(node, pieces, i + 1, captured);
        } else {
            let c = node.children@;
            let j = match_child(c, seg)->Some_0;
            assert(first_match_child(c, seg, j));
            lemma_match_is_key_child(c, seg, j);
            let w = walk(node, pieces, i);
            assert(w[0] == c[j].0.key());
            match c[j].0 {
                Pattern::Exact(_) => {
                    lemma_route_registered(c[j].1, pieces, i + 1, captured);
                    assert(w.drop_first() =~= walk(c[j].1, pieces, i + 1));
                },
                Pattern::Capture => {
                    lemma_route_registered(c[j].1, pieces, i + 1, captured.push(seg));
                    assert(w.drop_first() =~= walk(c[j].1, pieces, i + 1));
                },
                Pattern::Collect => {
                    assert(w.drop_first() =~= Seq::<PatternKey>::empty());
                },
            }
        }
    }
}

proof fn lemma_route_kept<S>(
    r: Node<S>,
    a: Node<S>,
    keys: Seq<PatternKey>,
    h: Map<Seq<char>, S>,
    pieces: Seq<Seq<char>>,
    i: int,
    captured: Seq<Seq<char>>,
)
    requires
        0 <= i <= pieces.len(),
        grown(r, a, keys, h),
        route_from(r, pieces, i, captured) is Some,
    ensures
        route_from(a, pieces, i, captured) == if walk(r, pieces, i) == keys {
            Some((h, route_from(r, pieces, i, captured)->Some_0.1))
        } else {
            route_from(r, pieces, i, captured)
        },
    decreases pieces.len() - i,
{
    if i >= pieces.len() {
        assert(walk(r, pieces, i) =~= Seq::<PatternKey>::empty());
        if keys.len() == 0 {
            assert(keys =~= Seq::<PatternKey>::empty());
        }
    }
    if i < pieces.len() {
        let seg = pieces[i];
        if seg.len() == 0 {
            lemma_route_kept(r, a, keys, h, pieces, i + 1, captured);
        } else {
            let cr = r.children@;
            let ca = a.children@;
            let j = match_child(cr, seg)->Some_0;
            assert(first_match_child(cr, seg, j));
            lemma_match_is_key_child(cr, seg, j);
            let kj = cr[j].0.key();
            let w = walk(r, pieces, i);
            assert(w[0] == kj);
            if keys.len() == 0 {
                assert(ca == cr);
                assert(w != keys);
            } else {
                let k = keys[0];
                let rest = keys.drop_first();
                match child_for_key(cr, k) {
                    Some(jk) => {
                        assert forall|t: int| 0 <= t < cr.len() implies (#[trigger] cr[t]).0.key() == ca[t].0.key() by {
                            if t != jk {
                                assert(ca[t] == cr[t]);
                            }
                        }
                        lemma_match_child_same(cr, ca, seg);
                        if j != jk {
                            assert(ca[j] == cr[j]);
                            assert(w != keys);
                        } else {
                            match cr[j].0 {
                                Pattern::Exact(_) => {
                                    lemma_route_kept(cr[j].1, ca[j].1, rest, h, pieces, i + 1, captured);
                                    assert(w == seq![kj] + walk(cr[j].1, pieces, i + 1));
                                    assert(keys =~= seq![k] + rest);
                                    if walk(cr[j].1, pieces, i + 1) == rest {
                                        assert(w =~= keys);
                                    } else {
                                        assert(w.drop_first() =~= walk(cr[j].1, pieces, i + 1));
                                    }
                                },
                                Pattern::Capture => {
                                    lemma_route_kept(
                                        cr[j].1,
                                        ca[j].1,
                                        rest,
                                        h,
                                        pieces,
                                        i + 1,
                                        captured.push(seg),
                                    );
                                    assert(w == seq![kj] + walk(cr[j].1, pieces, i + 1));
                                    assert(keys =~= seq![k] + rest);
                                    if walk(cr[j].1, pieces, i + 1) == rest {
                                        assert(w =~= keys);
                                    } else {
                                        assert(w.drop_first() =~= walk(cr[j].1, pieces, i + 1));
                                    }
                                },
                                Pattern::Collect => {
                                    assert(ca[j].0 == cr[j].0);
                                    assert(grown(cr[j].1, ca[j].1, rest, h));
                                    if rest.len() == 0 {
                                        assert(w =~= keys);
                                    } else {
                                        assert(w.len() != keys.len());
                                    }
                                },
                            }
                        }
                    },
                    None => {
                        assert forall|t: int| 0 <= t <= j implies (#[trigger] ca[t]) == cr[t] by {}
                        assert(first_match_child(ca, seg, j));
                        lemma_first_match_unique(ca, seg, j);
                        assert(w != keys);
                    },
                }
            }
        }
    }
}

/// Routing law: binding a route again replaces its handler and nothing else. A router
/// that had `keys` added with `h1` and then again with `h2` routes every path as the router
/// that had `keys` added with `h2` alone.
pub proof fn lemma_route_added_again<S>(
    r: &Router<S>,
    a: &Router<S>,
    b: &Router<S>,
    c: &Router<S>,
    keys: Seq<PatternKey>,
    h1: Map<Seq<char>, S>,
    h2: Map<Seq<char>, S>,
    path: Seq<char>,
)
    requires
        a.added_to(r, keys, h1),
        b.added_to(a, keys, h2),
        c.added_to(r, keys, h2),
    ensures
        b.routes_to(path) == c.routes_to(path),
{
    assert forall|e: nat| #[trigger] same_upto(r.root, r.root, e) by {
        lemma_same_refl(r.root, e);
    }
    assert forall|d: nat| #[trigger] same_upto(b.root, c.root, d) by {
        lemma_grown_twice(r.root, r.root, a.root, b.root, c.root, keys, h1, h2, d);
    }
    lemma_route_same(b.root, c.root, split_on(path, '/'), 0, Seq::<Seq<char>>::empty());
}

/// Routing law: adding a route takes nothing away. A path that reached a handler before
/// still reaches one, with the same captures: the added handler when the patterns routing
/// steps through are the added route's, the handler it reached before otherwise.
pub proof fn lemma_route_added_keeps<S>(
    r: &Router<S>,
    a: &Router<S>,
    keys: Seq<PatternKey>,
    h: Map<Seq<char>, S>,
    path: Seq<char>,
)
    requires
        a.added_to(r, keys, h),
        r.routes_to(path) is Some,
    ensures
        a.routes_to(path) == if r.route_walk(path) == keys {
            Some((h, r.routes_to(path)->Some_0.1))
        } else {
            r.routes_to(path)
        },
{
    lemma_route_kept(r.root, a.root, keys, h, split_on(path, '/'), 0, Seq::<Seq<char>>::empty());
}

/// Routing law: the handler a path reaches is the one registered under the patterns of the
/// nodes routing steps through.
pub proof fn lemma_route_reaches_registered<S>(r: &Router<S>, path: Seq<char>)
    requires
        r.routes_to(path) is Some,
    ensures
        r@.contains_key(r.route_walk(path)),
        r@[r.route_walk(path)] == r.routes_to(path)->Some_0.0,
{
    lemma_route_registered(r.root, split_on(path, '/'), 0, Seq::<Seq<char>>::empty());
}

/// The character views of a list of strings.
pub open spec fn string_views(v: Seq<String>) -> Seq<Seq<char>> {
    v.map_values(|s: String| s@)
}

fn to_captures(v: Vec<String>) -> (r: Captures)
    ensures
        r@ == v@,
{
    let mut r: Captures = VecDeque::new();
    let mut i: usize = 0;
    while i < v.len()
        invariant
            i <= v@.len(),
            r@ == v@.take(i as int),
        decreases v@.len() - i,
    {
        r.push_back(v[i].clone());
        assert(v@.take(i + 1) == v@.take(i as int).push(v@[i as int]));
        i = i + 1;
    }
    assert(v@.take(v@.len() as int) == v@);
    r
}

fn nonempty_segments(pieces: &Vec<Vec<char>>) -> (r: Vec<Vec<char>>)
    ensures
        views(r@) == nonempty_pieces(views(pieces@)),
        forall|t: int| 0 <= t < r@.len() ==> (#[trigger] r@[t])@.len() > 0,
{
    let mut r: Vec<Vec<char>> = Vec::new();
    let mut i: usize = 0;
    while i < pieces.len()
        invariant
            i <= pieces@.len(),
            views(r@) == nonempty_pieces(views(pieces@).take(i as int)),
            forall|t: int| 0 <= t < r@.len() ==> (#[trigger] r@[t])@.len() > 0,
        decreases pieces@.len() - i,
    {
        let ghost old_r = r@;
        assert(views(pieces@).take(i + 1).drop_last() == views(pieces@).take(i as int));
        assert(views(pieces@).take(i + 1).last() == pieces@[i as int]@);
        if pieces[i].len() > 0 {
            r.push(pieces[i].clone());
            assert(views(r@) =~= views(old_r).push(pieces@[i as int]@));
        }
        i = i + 1;
    }
    assert(views(pieces@).take(pieces@.len() as int) == views(pieces@));
    r
}

} // verus!
