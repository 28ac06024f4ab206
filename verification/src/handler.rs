//! Request methods and the per-route table from method to system.

use vstd::prelude::*;

use crate::str_map::StrMap;

verus! {

/// A system bound to one request method.
pub enum Method<T> {
    Get(T),
    Head(T),
    Post(T),
    Put(T),
    Delete(T),
    Connect(T),
    Options(T),
    Patch(T),
    Trace(T),
}

impl<T> Method<T> {
    /// The name of the method, as it stands in a request line.
    pub open spec fn name(&self) -> Seq<char> {
        match self {
            Method::Get(_) => "GET"@,
            Method::Head(_) => "HEAD"@,
            Method::Post(_) => "POST"@,
            Method::Put(_) => "PUT"@,
            Method::Delete(_) => "DELETE"@,
            Method::Connect(_) => "CONNECT"@,
            Method::Options(_) => "OPTIONS"@,
            Method::Patch(_) => "PATCH"@,
            Method::Trace(_) => "TRACE"@,
        }
    }

    /// The system carried by this method.
    pub open spec fn value(&self) -> T {
        match self {
            Method::Get(v) => *v,
            Method::Head(v) => *v,
            Method::Post(v) => *v,
            Method::Put(v) => *v,
            Method::Delete(v) => *v,
            Method::Connect(v) => *v,
            Method::Options(v) => *v,
            Method::Patch(v) => *v,
            Method::Trace(v) => *v,
        }
    }

    /// The method name and the system.
    pub fn inner(self) -> (r: (String, T))
        ensures
            r.0@ == self.name(),
            r.1 == self.value(),
    {
        match self {
            Method::Get(v) => ("GET".to_owned(), v),
            Method::Head(v) => ("HEAD".to_owned(), v),
            Method::Post(v) => ("POST".to_owned(), v),
            Method::Put(v) => ("PUT".to_owned(), v),
            Method::Delete(v) => ("DELETE".to_owned(), v),
            Method::Connect(v) => ("CONNECT".to_owned(), v),
            Method::Options(v) => ("OPTIONS".to_owned(), v),
            Method::Patch(v) => ("PATCH".to_owned(), v),
            Method::Trace(v) => ("TRACE".to_owned(), v),
        }
    }
}

/// The systems of one route, one per request method.
pub struct Handler<S> {
    methods: StrMap<S>,
}

impl<S> Handler<S> {
    /// The systems of this route by method name.
    pub closed spec fn view(&self) -> Map<Seq<char>, S> {
        self.methods@
    }

    /// A handler with no method.
    pub fn new() -> (r: Self)
        ensures
            r@ == Map::<Seq<char>, S>::empty(),
    {
        Handler { methods: StrMap::new() }
    }

    /// Binds `system` to `method`, replacing what was bound to it.
    pub fn insert(&mut self, method: String, system: S)
        ensures
            final(self)@ == old(self)@.insert(method@, system),
    {
        self.methods.insert(method, system);
    }

    /// The system bound to `method`, if any.
    pub fn get(&self, method: &String) -> (r: Option<&S>)
        ensures
            match r {
                Some(s) => self@.contains_key(method@) && self@[method@] == *s,
                None => !self@.contains_key(method@),
            },
    {
        self.methods.get(method)
    }
}

/// The map `m` after binding each pair in turn, later pairs winning.
pub open spec fn apply_pairs<S>(m: Map<Seq<char>, S>, ps: Seq<(Seq<char>, S)>) -> Map<Seq<char>, S>
    decreases ps.len(),
{
    if ps.len() == 0 {
        m
    } else {
        apply_pairs(m, ps.drop_last()).insert(ps.last().0, ps.last().1)
    }
}

pub proof fn lemma_apply_take<S>(m: Map<Seq<char>, S>, ps: Seq<(Seq<char>, S)>, k: int)
    requires
        0 <= k < ps.len(),
    ensures
        apply_pairs(m, ps.take(k + 1)) == apply_pairs(m, ps.take(k)).insert(ps[k].0, ps[k].1),
{
    assert(ps.take(k + 1).drop_last() == ps.take(k));
}

/// Something that binds systems to methods of a route: one `Method` or a tuple of them.
pub trait InsertHandler<S>: Sized {
    /// The (method name, system) pairs this binds, in order.
    spec fn bindings(&self) -> Seq<(Seq<char>, S)>;

    /// Binds the systems in the handler, later pairs replacing earlier ones.
    fn insert_to_handler(self, handler: &mut Handler<S>)
        ensures
            final(handler)@ == apply_pairs(old(handler)@, self.bindings()),
    ;
}

impl<S> InsertHandler<S> for Method<S> {
    open spec fn bindings(&self) -> Seq<(Seq<char>, S)> {
        seq![(self.name(), self.value())]
    }

    fn insert_to_handler(self, handler: &mut Handler<S>) {
        let ghost b = self.bindings();
        let (name, system) = self.inner();
        handler.insert(name, system);
        proof {
            lemma_apply_take(old(handler)@, b, 0);
            assert(b.take(1) == b);
            assert(b.take(0).len() == 0);
        }
    }
}

impl<S> InsertHandler<S> for (Method<S>, Method<S>) {
    open spec fn bindings(&self) -> Seq<(Seq<char>, S)> {
        seq![(self.0.name(), self.0.value()), (self.1.name(), self.1.value())]
    }

    fn insert_to_handler(self, handler: &mut Handler<S>) {
        let ghost b = self.bindings();
        let (m0, m1) = self;
        let ghost start = old(handler)@;
        assert(b.take(0).len() == 0);
        let (name, system) = m0.inner();
        handler.insert(name, system);
        proof { lemma_apply_take(start, b, 0); }
        assert(handler@ == apply_pairs(start, b.take(1)));
        let (name, system) = m1.inner();
        handler.insert(name, system);
        proof { lemma_apply_take(start, b, 1); }
        assert(handler@ == apply_pairs(start, b.take(2)));
        assert(b.take(2) == b);
    }
}

impl<S> InsertHandler<S> for (Method<S>, Method<S>, Method<S>) {
    open spec fn bindings(&self) -> Seq<(Seq<char>, S)> {
        seq![(self.0.name(), self.0.value()), (self.1.name(), self.1.value()), (self.2.name(), self.2.value())]
    }

    fn insert_to_handler(self, handler: &mut Handler<S>) {
        let ghost b = self.bindings();
        let (m0, m1, m2) = self;
        let ghost start = old(handler)@;
        assert(b.take(0).len() == 0);
        let (name, system) = m0.inner();
        handler.insert(name, system);
        proof { lemma_apply_take(start, b, 0); }
        assert(handler@ == apply_pairs(start, b.take(1)));
        let (name, system) = m1.inner();
        handler.insert(name, system);
        proof { lemma_apply_take(start, b, 1); }
        assert(handler@ == apply_pairs(start, b.take(2)));
        let (name, system) = m2.inner();
        handler.insert(name, system);
        proof { lemma_apply_take(start, b, 2); }
        assert(handler@ == apply_pairs(start, b.take(3)));
        assert(b.take(3) == b);
    }
}

impl<S> InsertHandler<S> for (Method<S>, Method<S>, Method<S>, Method<S>) {
    open spec fn bindings(&self) -> Seq<(Seq<char>, S)> {
        seq![(self.0.name(), self.0.value()), (self.1.name(), self.1.value()), (self.2.name(), self.2.value()), (self.3.name(), self.3.value())]
    }

    fn insert_to_handler(self, handler: &mut Handler<S>) {
        let ghost b = self.bindings();
        let (m0, m1, m2, m3) = self;
        let ghost start = old(handler)@;
        assert(b.take(0).len() == 0);
        let (name, system) = m0.inner();
        handler.insert(name, system);
        proof { lemma_apply_take(start, b, 0); }
        assert(handler@ == apply_pairs(start, b.take(1)));
        let (name, system) = m1.inner();
        handler.insert(name, system);
        proof { lemma_apply_take(start, b, 1); }
        assert(handler@ == apply_pairs(start, b.take(2)));
        let (name, system) = m2.inner();
        handler.insert(name, system);
        proof { lemma_apply_take(start, b, 2); }
        assert(handler@ == apply_pairs(start, b.take(3)));
        let (name, system) = m3.inner();
        handler.insert(name, system);
        proof { lemma_apply_take(start, b, 3); }
        assert(handler@ == apply_pairs(start, b.take(4)));
        assert(b.take(4) == b);
    }
}

impl<S> InsertHandler<S> for (Method<S>, Method<S>, Method<S>, Method<S>, Method<S>) {
    open spec fn bindings(&self) -> Seq<(Seq<char>, S)> {
        seq![(self.0.name(), self.0.value()), (self.1.name(), self.1.value()), (self.2.name(), self.2.value()), (self.3.name(), self.3.value()), (self.4.name(), self.4.value())]
    }

    fn insert_to_handler(self, handler: &mut Handler<S>) {
        let ghost b = self.bindings();
        let (m0, m1, m2, m3, m4) = self;
        let ghost start = old(handler)@;
        assert(b.take(0).len() == 0);
        let (name, system) = m0.inner();
        handler.insert(name, system);
        proof { lemma_apply_take(start, b, 0); }
        assert(handler@ == apply_pairs(start, b.take(1)));
        let (name, system) = m1.inner();
        handler.insert(name, system);
        proof { lemma_apply_take(start, b, 1); }
        assert(handler@ == apply_pairs(start, b.take(2)));
        let (name, system) = m2.inner();
        handler.insert(name, system);
        proof { lemma_apply_take(start, b, 2); }
        assert(handler@ == apply_pairs(start, b.take(3)));
        let (name, system) = m3.inner();
        handler.insert(name, system);
        proof { lemma_apply_take(start, b, 3); }
        assert(handler@ == apply_pairs(start, b.take(4)));
        let (name, system) = m4.inner();
        handler.insert(name, system);
        proof { lemma_apply_take(start, b, 4); }
        assert(handler@ == apply_pairs(start, b.take(5)));
        assert(b.take(5) == b);
    }
}

impl<S> InsertHandler<S> for (Method<S>, Method<S>, Method<S>, Method<S>, Method<S>, Method<S>) {
    open spec fn bindings(&self) -> Seq<(Seq<char>, S)> {
        seq![(self.0.name(), self.0.value()), (self.1.name(), self.1.value()), (self.2.name(), self.2.value()), (self.3.name(), self.3.value()), (self.4.name(), self.4.value()), (self.5.name(), self.5.value())]
    }

    fn insert_to_handler(self, handler: &mut Handler<S>) {
        let ghost b = self.bindings();
        let (m0, m1, m2, m3, m4, m5) = self;
        let ghost start = old(handler)@;
        assert(b.take(0).len() == 0);
        let (name, system) = m0.inner();
        handler.insert(name, system);
        proof { lemma_apply_take(start, b, 0); }
        assert(handler@ == apply_pairs(start, b.take(1)));
        let (name, system) = m1.inner();
        handler.insert(name, system);
        proof { lemma_apply_take(start, b, 1); }
        assert(handler@ == apply_pairs(start, b.take(2)));
        let (name, system) = m2.inner();
        handler.insert(name, system);
        proof { lemma_apply_take(start, b, 2); }
        assert(handler@ == apply_pairs(start, b.take(3)));
        let (name, system) = m3.inner();
        handler.insert(name, system);
        proof { lemma_apply_take(start, b, 3); }
        assert(handler@ == apply_pairs(start, b.take(4)));
        let (name, system) = m4.inner();
        handler.insert(name, system);
        proof { lemma_apply_take(start, b, 4); }
        assert(handler@ == apply_pairs(start, b.take(5)));
        let (name, system) = m5.inner();
        handler.insert(name, system);
        proof { lemma_apply_take(start, b, 5); }
        assert(handler@ == apply_pairs(start, b.take(6)));
        assert(b.take(6) == b);
    }
}

impl<S> InsertHandler<S> for (Method<S>, Method<S>, Method<S>, Method<S>, Method<S>, Method<S>, Method<S>) {
    open spec fn bindings(&self) -> Seq<(Seq<char>, S)> {
        seq![(self.0.name(), self.0.value()), (self.1.name(), self.1.value()), (self.2.name(), self.2.value()), (self.3.name(), self.3.value()), (self.4.name(), self.4.value()), (self.5.name(), self.5.value()), (self.6.name(), self.6.value())]
    }

    fn insert_to_handler(self, handler: &mut Handler<S>) {
        let ghost b = self.bindings();
        let (m0, m1, m2, m3, m4, m5, m6) = self;
        let ghost start = old(handler)@;
        assert(b.take(0).len() == 0);
        let (name, system) = m0.inner();
        handler.insert(name, system);
        proof { lemma_apply_take(start, b, 0); }
        assert(handler@ == apply_pairs(start, b.take(1)));
        let (name, system) = m1.inner();
        handler.insert(name, system);
        proof { lemma_apply_take(start, b, 1); }
        assert(handler@ == apply_pairs(start, b.take(2)));
        let (name, system) = m2.inner();
        handler.insert(name, system);
        proof { lemma_apply_take(start, b, 2); }
        assert(handler@ == apply_pairs(start, b.take(3)));
        let (name, system) = m3.inner();
        handler.insert(name, system);
        proof { lemma_apply_take(start, b, 3); }
        assert(handler@ == apply_pairs(start, b.take(4)));
        let (name, system) = m4.inner();
        handler.insert(name, system);
        proof { lemma_apply_take(start, b, 4); }
        assert(handler@ == apply_pairs(start, b.take(5)));
        let (name, system) = m5.inner();
        handler.insert(name, system);
        proof { lemma_apply_take(start, b, 5); }
        assert(handler@ == apply_pairs(start, b.take(6)));
        let (name, system) = m6.inner();
        handler.insert(name, system);
        proof { lemma_apply_take(start, b, 6); }
        assert(handler@ == apply_pairs(start, b.take(7)));
        assert(b.take(7) == b);
    }
}

impl<S> InsertHandler<S> for (Method<S>, Method<S>, Method<S>, Method<S>, Method<S>, Method<S>, Method<S>, Method<S>) {
    open spec fn bindings(&self) -> Seq<(Seq<char>, S)> {
        seq![(self.0.name(), self.0.value()), (self.1.name(), self.1.value()), (self.2.name(), self.2.value()), (self.3.name(), self.3.value()), (self.4.name(), self.4.value()), (self.5.name(), self.5.value()), (self.6.name(), self.6.value()), (self.7.name(), self.7.value())]
    }

    fn insert_to_handler(self, handler: &mut Handler<S>) {
        let ghost b = self.bindings();
        let (m0, m1, m2, m3, m4, m5, m6, m7) = self;
        let ghost start = old(handler)@;
        assert(b.take(0).len() == 0);
        let (name, system) = m0.inner();
        handler.insert(name, system);
        proof { lemma_apply_take(start, b, 0); }
        assert(handler@ == apply_pairs(start, b.take(1)));
        let (name, system) = m1.inner();
        handler.insert(name, system);
        proof { lemma_apply_take(start, b, 1); }
        assert(handler@ == apply_pairs(start, b.take(2)));
        let (name, system) = m2.inner();
        handler.insert(name, system);
        proof { lemma_apply_take(start, b, 2); }
        assert(handler@ == apply_pairs(start, b.take(3)));
        let (name, system) = m3.inner();
        handler.insert(name, system);
        proof { lemma_apply_take(start, b, 3); }
        assert(handler@ == apply_pairs(start, b.take(4)));
        let (name, system) = m4.inner();
        handler.insert(name, system);
        proof { lemma_apply_take(start, b, 4); }
        assert(handler@ == apply_pairs(start, b.take(5)));
        let (name, system) = m5.inner();
        handler.insert(name, system);
        proof { lemma_apply_take(start, b, 5); }
        assert(handler@ == apply_pairs(start, b.take(6)));
        let (name, system) = m6.inner();
        handler.insert(name, system);
        proof { lemma_apply_take(start, b, 6); }
        assert(handler@ == apply_pairs(start, b.take(7)));
        let (name, system) = m7.inner();
        handler.insert(name, system);
        proof { lemma_apply_take(start, b, 7); }
        assert(handler@ == apply_pairs(start, b.take(8)));
        assert(b.take(8) == b);
    }
}

impl<S> InsertHandler<S> for (Method<S>, Method<S>, Method<S>, Method<S>, Method<S>, Method<S>, Method<S>, Method<S>, Method<S>) {
    open spec fn bindings(&self) -> Seq<(Seq<char>, S)> {
        seq![(self.0.name(), self.0.value()), (self.1.name(), self.1.value()), (self.2.name(), self.2.value()), (self.3.name(), self.3.value()), (self.4.name(), self.4.value()), (self.5.name(), self.5.value()), (self.6.name(), self.6.value()), (self.7.name(), self.7.value()), (self.8.name(), self.8.value())]
    }

    fn insert_to_handler(self, handler: &mut Handler<S>) {
        let ghost b = self.bindings();
        let (m0, m1, m2, m3, m4, m5, m6, m7, m8) = self;
        let ghost start = old(handler)@;
        assert(b.take(0).len() == 0);
        let (name, system) = m0.inner();
        handler.insert(name, system);
        proof { lemma_apply_take(start, b, 0); }
        assert(handler@ == apply_pairs(start, b.take(1)));
        let (name, system) = m1.inner();
        handler.insert(name, system);
        proof { lemma_apply_take(start, b, 1); }
        assert(handler@ == apply_pairs(start, b.take(2)));
        let (name, system) = m2.inner();
        handler.insert(name, system);
        proof { lemma_apply_take(start, b, 2); }
        assert(handler@ == apply_pairs(start, b.take(3)));
        let (name, system) = m3.inner();
        handler.insert(name, system);
        proof { lemma_apply_take(start, b, 3); }
        assert(handler@ == apply_pairs(start, b.take(4)));
        let (name, system) = m4.inner();
        handler.insert(name, system);
        proof { lemma_apply_take(start, b, 4); }
        assert(handler@ == apply_pairs(start, b.take(5)));
        let (name, system) = m5.inner();
        handler.insert(name, system);
        proof { lemma_apply_take(start, b, 5); }
        assert(handler@ == apply_pairs(start, b.take(6)));
        let (name, system) = m6.inner();
        handler.insert(name, system);
        proof { lemma_apply_take(start, b, 6); }
        assert(handler@ == apply_pairs(start, b.take(7)));
        let (name, system) = m7.inner();
        handler.insert(name, system);
        proof { lemma_apply_take(start, b, 7); }
        assert(handler@ == apply_pairs(start, b.take(8)));
        let (name, system) = m8.inner();
        handler.insert(name, system);
        proof { lemma_apply_take(start, b, 8); }
        assert(handler@ == apply_pairs(start, b.take(9)));
        assert(b.take(9) == b);
    }
}

impl<S> InsertHandler<S> for (Method<S>, Method<S>, Method<S>, Method<S>, Method<S>, Method<S>, Method<S>, Method<S>, Method<S>, Method<S>) {
    open spec fn bindings(&self) -> Seq<(Seq<char>, S)> {
        seq![(self.0.name(), self.0.value()), (self.1.name(), self.1.value()), (self.2.name(), self.2.value()), (self.3.name(), self.3.value()), (self.4.name(), self.4.value()), (self.5.name(), self.5.value()), (self.6.name(), self.6.value()), (self.7.name(), self.7.value()), (self.8.name(), self.8.value()), (self.9.name(), self.9.value())]
    }

    fn insert_to_handler(self, handler: &mut Handler<S>) {
        let ghost b = self.bindings();
        let (m0, m1, m2, m3, m4, m5, m6, m7, m8, m9) = self;
        let ghost start = old(handler)@;
        assert(b.take(0).len() == 0);
        let (name, system) = m0.inner();
        handler.insert(name, system);
        proof { lemma_apply_take(start, b, 0); }
        assert(handler@ == apply_pairs(start, b.take(1)));
        let (name, system) = m1.inner();
        handler.insert(name, system);
        proof { lemma_apply_take(start, b, 1); }
        assert(handler@ == apply_pairs(start, b.take(2)));
        let (name, system) = m2.inner();
        handler.insert(name, system);
        proof { lemma_apply_take(start, b, 2); }
        assert(handler@ == apply_pairs(start, b.take(3)));
        let (name, system) = m3.inner();
        handler.insert(name, system);
        proof { lemma_apply_take(start, b, 3); }
        assert(handler@ == apply_pairs(start, b.take(4)));
        let (name, system) = m4.inner();
        handler.insert(name, system);
        proof { lemma_apply_take(start, b, 4); }
        assert(handler@ == apply_pairs(start, b.take(5)));
        let (name, system) = m5.inner();
        handler.insert(name, system);
        proof { lemma_apply_take(start, b, 5); }
        assert(handler@ == apply_pairs(start, b.take(6)));
        let (name, system) = m6.inner();
        handler.insert(name, system);
        proof { lemma_apply_take(start, b, 6); }
        assert(handler@ == apply_pairs(start, b.take(7)));
        let (name, system) = m7.inner();
        handler.insert(name, system);
        proof { lemma_apply_take(start, b, 7); }
        assert(handler@ == apply_pairs(start, b.take(8)));
        let (name, system) = m8.inner();
        handler.insert(name, system);
        proof { lemma_apply_take(start, b, 8); }
        assert(handler@ == apply_pairs(start, b.take(9)));
        let (name, system) = m9.inner();
        handler.insert(name, system);
        proof { lemma_apply_take(start, b, 9); }
        assert(handler@ == apply_pairs(start, b.take(10)));
        assert(b.take(10) == b);
    }
}

impl<S> InsertHandler<S> for (Method<S>, Method<S>, Method<S>, Method<S>, Method<S>, Method<S>, Method<S>, Method<S>, Method<S>, Method<S>, Method<S>) {
    open spec fn bindings(&self) -> Seq<(Seq<char>, S)> {
        seq![(self.0.name(), self.0.value()), (self.1.name(), self.1.value()), (self.2.name(), self.2.value()), (self.3.name(), self.3.value()), (self.4.name(), self.4.value()), (self.5.name(), self.5.value()), (self.6.name(), self.6.value()), (self.7.name(), self.7.value()), (self.8.name(), self.8.value()), (self.9.name(), self.9.value()), (self.10.name(), self.10.value())]
    }

    fn insert_to_handler(self, handler: &mut Handler<S>) {
        let ghost b = self.bindings();
        let (m0, m1, m2, m3, m4, m5, m6, m7, m8, m9, m10) = self;
        let ghost start = old(handler)@;
        assert(b.take(0).len() == 0);
        let (name, system) = m0.inner();
        handler.insert(name, system);
        proof { lemma_apply_take(start, b, 0); }
        assert(handler@ == apply_pairs(start, b.take(1)));
        let (name, system) = m1.inner();
        handler.insert(name, system);
        proof { lemma_apply_take(start, b, 1); }
        assert(handler@ == apply_pairs(start, b.take(2)));
        let (name, system) = m2.inner();
        handler.insert(name, system);
        proof { lemma_apply_take(start, b, 2); }
        assert(handler@ == apply_pairs(start, b.take(3)));
        let (name, system) = m3.inner();
        handler.insert(name, system);
        proof { lemma_apply_take(start, b, 3); }
        assert(handler@ == apply_pairs(start, b.take(4)));
        let (name, system) = m4.inner();
        handler.insert(name, system);
        proof { lemma_apply_take(start, b, 4); }
        assert(handler@ == apply_pairs(start, b.take(5)));
        let (name, system) = m5.inner();
        handler.insert(name, system);
        proof { lemma_apply_take(start, b, 5); }
        assert(handler@ == apply_pairs(start, b.take(6)));
        let (name, system) = m6.inner();
        handler.insert(name, system);
        proof { lemma_apply_take(start, b, 6); }
        assert(handler@ == apply_pairs(start, b.take(7)));
        let (name, system) = m7.inner();
        handler.insert(name, system);
        proof { lemma_apply_take(start, b, 7); }
        assert(handler@ == apply_pairs(start, b.take(8)));
        let (name, system) = m8.inner();
        handler.insert(name, system);
        proof { lemma_apply_take(start, b, 8); }
        assert(handler@ == apply_pairs(start, b.take(9)));
        let (name, system) = m9.inner();
        handler.insert(name, system);
        proof { lemma_apply_take(start, b, 9); }
        assert(handler@ == apply_pairs(start, b.take(10)));
        let (name, system) = m10.inner();
        handler.insert(name, system);
        proof { lemma_apply_take(start, b, 10); }
        assert(handler@ == apply_pairs(start, b.take(11)));
        assert(b.take(11) == b);
    }
}

impl<S> InsertHandler<S> for (Method<S>, Method<S>, Method<S>, Method<S>, Method<S>, Method<S>, Method<S>, Method<S>, Method<S>, Method<S>, Method<S>, Method<S>) {
    open spec fn bindings(&self) -> Seq<(Seq<char>, S)> {
        seq![(self.0.name(), self.0.value()), (self.1.name(), self.1.value()), (self.2.name(), self.2.value()), (self.3.name(), self.3.value()), (self.4.name(), self.4.value()), (self.5.name(), self.5.value()), (self.6.name(), self.6.value()), (self.7.name(), self.7.value()), (self.8.name(), self.8.value()), (self.9.name(), self.9.value()), (self.10.name(), self.10.value()), (self.11.name(), self.11.value())]
    }

    fn insert_to_handler(self, handler: &mut Handler<S>) {
        let ghost b = self.bindings();
        let (m0, m1, m2, m3, m4, m5, m6, m7, m8, m9, m10, m11) = self;
        let ghost start = old(handler)@;
        assert(b.take(0).len() == 0);
        let (name, system) = m0.inner();
        handler.insert(name, system);
        proof { lemma_apply_take(start, b, 0); }
        assert(handler@ == apply_pairs(start, b.take(1)));
        let (name, system) = m1.inner();
        handler.insert(name, system);
        proof { lemma_apply_take(start, b, 1); }
        assert(handler@ == apply_pairs(start, b.take(2)));
        let (name, system) = m2.inner();
        handler.insert(name, system);
        proof { lemma_apply_take(start, b, 2); }
        assert(handler@ == apply_pairs(start, b.take(3)));
        let (name, system) = m3.inner();
        handler.insert(name, system);
        proof { lemma_apply_take(start, b, 3); }
        assert(handler@ == apply_pairs(start, b.take(4)));
        let (name, system) = m4.inner();
        handler.insert(name, system);
        proof { lemma_apply_take(start, b, 4); }
        assert(handler@ == apply_pairs(start, b.take(5)));
        let (name, system) = m5.inner();
        handler.insert(name, system);
        proof { lemma_apply_take(start, b, 5); }
        assert(handler@ == apply_pairs(start, b.take(6)));
        let (name, system) = m6.inner();
        handler.insert(name, system);
        proof { lemma_apply_take(start, b, 6); }
        assert(handler@ == apply_pairs(start, b.take(7)));
        let (name, system) = m7.inner();
        handler.insert(name, system);
        proof { lemma_apply_take(start, b, 7); }
        assert(handler@ == apply_pairs(start, b.take(8)));
        let (name, system) = m8.inner();
        handler.insert(name, system);
        proof { lemma_apply_take(start, b, 8); }
        assert(handler@ == apply_pairs(start, b.take(9)));
        let (name, system) = m9.inner();
        handler.insert(name, system);
        proof { lemma_apply_take(start, b, 9); }
        assert(handler@ == apply_pairs(start, b.take(10)));
        let (name, system) = m10.inner();
        handler.insert(name, system);
        proof { lemma_apply_take(start, b, 10); }
        assert(handler@ == apply_pairs(start, b.take(11)));
        let (name, system) = m11.inner();
        handler.insert(name, system);
        proof { lemma_apply_take(start, b, 11); }
        assert(handler@ == apply_pairs(start, b.take(12)));
        assert(b.take(12) == b);
    }
}

impl<S> InsertHandler<S> for (Method<S>, Method<S>, Method<S>, Method<S>, Method<S>, Method<S>, Method<S>, Method<S>, Method<S>, Method<S>, Method<S>, Method<S>, Method<S>) {
    open spec fn bindings(&self) -> Seq<(Seq<char>, S)> {
        seq![(self.0.name(), self.0.value()), (self.1.name(), self.1.value()), (self.2.name(), self.2.value()), (self.3.name(), self.3.value()), (self.4.name(), self.4.value()), (self.5.name(), self.5.value()), (self.6.name(), self.6.value()), (self.7.name(), self.7.value()), (self.8.name(), self.8.value()), (self.9.name(), self.9.value()), (self.10.name(), self.10.value()), (self.11.name(), self.11.value()), (self.12.name(), self.12.value())]
    }

    fn insert_to_handler(self, handler: &mut Handler<S>) {
        let ghost b = self.bindings();
        let (m0, m1, m2, m3, m4, m5, m6, m7, m8, m9, m10, m11, m12) = self;
        let ghost start = old(handler)@;
        assert(b.take(0).len() == 0);
        let (name, system) = m0.inner();
        handler.insert(name, system);
        proof { lemma_apply_take(start, b, 0); }
        assert(handler@ == apply_pairs(start, b.take(1)));
        let (name, system) = m1.inner();
        handler.insert(name, system);
        proof { lemma_apply_take(start, b, 1); }
        assert(handler@ == apply_pairs(start, b.take(2)));
        let (name, system) = m2.inner();
        handler.insert(name, system);
        proof { lemma_apply_take(start, b, 2); }
        assert(handler@ == apply_pairs(start, b.take(3)));
        let (name, system) = m3.inner();
        handler.insert(name, system);
        proof { lemma_apply_take(start, b, 3); }
        assert(handler@ == apply_pairs(start, b.take(4)));
        let (name, system) = m4.inner();
        handler.insert(name, system);
        proof { lemma_apply_take(start, b, 4); }
        assert(handler@ == apply_pairs(start, b.take(5)));
        let (name, system) = m5.inner();
        handler.insert(name, system);
        proof { lemma_apply_take(start, b, 5); }
        assert(handler@ == apply_pairs(start, b.take(6)));
        let (name, system) = m6.inner();
        handler.insert(name, system);
        proof { lemma_apply_take(start, b, 6); }
        assert(handler@ == apply_pairs(start, b.take(7)));
        let (name, system) = m7.inner();
        handler.insert(name, system);
        proof { lemma_apply_take(start, b, 7); }
        assert(handler@ == apply_pairs(start, b.take(8)));
        let (name, system) = m8.inner();
        handler.insert(name, system);
        proof { lemma_apply_take(start, b, 8); }
        assert(handler@ == apply_pairs(start, b.take(9)));
        let (name, system) = m9.inner();
        handler.insert(name, system);
        proof { lemma_apply_take(start, b, 9); }
        assert(handler@ == apply_pairs(start, b.take(10)));
        let (name, system) = m10.inner();
        handler.insert(name, system);
        proof { lemma_apply_take(start, b, 10); }
        assert(handler@ == apply_pairs(start, b.take(11)));
        let (name, system) = m11.inner();
        handler.insert(name, system);
        proof { lemma_apply_take(start, b, 11); }
        assert(handler@ == apply_pairs(start, b.take(12)));
        let (name, system) = m12.inner();
        handler.insert(name, system);
        proof { lemma_apply_take(start, b, 12); }
        assert(handler@ == apply_pairs(start, b.take(13)));
        assert(b.take(13) == b);
    }
}

} // verus!
