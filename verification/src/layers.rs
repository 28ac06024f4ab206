//! Middleware run on every request before routing and on every response before it is sent.

use std::fmt::Write;
use vstd::prelude::*;

use crate::http_utils::Request;
use crate::http_checks::is_visible_text;
use crate::response::{insert_header, RawResponse};
use crate::text::{decimal, decimal_string};

verus! {

/// Middleware behaviour on requests and responses.
pub trait Layer<I>: Send + Sync {
    /// Whether executing this layer may turn `before` into `after`; a layer that says
    /// nothing of it leaves it open.
    open spec fn executes(&self, before: I, after: I) -> bool {
        true
    }

    fn execute(&self, data: &mut I)
        ensures
            self.executes(*old(data), *final(data)),
    ;
}

/// Whether running `layers` in order may turn `before` into `after`.
pub open spec fn runs_through<I>(layers: Seq<BoxLayer<I>>, before: I, after: I) -> bool
    decreases layers.len(),
{
    if layers.len() == 0 {
        after == before
    } else {
        exists|mid: I|
            runs_through(layers.drop_last(), before, mid) && #[trigger] layers.last().executes(mid, after)
    }
}

/// A boxed layer of any type.
#[verifier::reject_recursive_types(I)]
pub struct BoxLayer<I> {
    layer: Box<dyn Layer<I>>,
}

/// A layer held by value, so that a boxed layer is known to run as the layer it holds.
struct Held<L> {
    layer: L,
}

impl<I, L: Layer<I>> Layer<I> for Held<L> {
    closed spec fn executes(&self, before: I, after: I) -> bool {
        self.layer.executes(before, after)
    }

    fn execute(&self, data: &mut I) {
        self.layer.execute(data);
    }
}

impl<I> BoxLayer<I> {
    /// Boxes a layer.
    pub fn new<L: Layer<I> + 'static>(layer: L) -> (r: Self)
        ensures
            forall|before: I, after: I| #[trigger] r.executes(before, after) == layer.executes(before, after),
    {
        let held = Held { layer };
        let r = BoxLayer { layer: Box::new(held) };
        assert(forall|before: I, after: I|
            #[trigger] r.layer.executes(before, after) == held.executes(before, after));
        r
    }
}

impl<I> Layer<I> for BoxLayer<I> {
    closed spec fn executes(&self, before: I, after: I) -> bool {
        self.layer.executes(before, after)
    }

    /// Executes the layer held.
    fn execute(&self, data: &mut I) {
        self.layer.execute(data);
    }
}

/// Runs the layers in order on `data`.
fn run_layers<I>(layers: &Vec<BoxLayer<I>>, data: &mut I)
    ensures
        runs_through(layers@, *old(data), *final(data)),
{
    let ghost start = *data;
    let ghost all = layers@;
    let mut i: usize = 0;
    assert(all.take(0).len() == 0);
    while i < layers.len()
        invariant
            i <= layers@.len(),
            all == layers@,
            runs_through(all.take(i as int), start, *data),
        decreases layers@.len() - i,
    {
        let ghost mid = *data;
        layers[i].execute(data);
        proof {
            let next = all.take(i + 1);
            assert(next.drop_last() == all.take(i as int));
            assert(next.last() == layers@[i as int]);
            assert(runs_through(next.drop_last(), start, mid) && next.last().executes(mid, *data));
        }
        i = i + 1;
    }
    assert(all.take(i as int) == all);
}

/// A collection of layers executed in sequence.
#[verifier::reject_recursive_types(I)]
pub struct LayerGroup<I> {
    layers: Vec<BoxLayer<I>>,
}

impl<I> LayerGroup<I> {
    /// The number of layers.
    pub closed spec fn len(&self) -> nat {
        self.layers@.len()
    }

    /// The layers, in the order they run.
    pub closed spec fn layers(&self) -> Seq<BoxLayer<I>> {
        self.layers@
    }

    /// An empty group.
    pub fn new() -> (r: Self)
        ensures
            r.len() == 0,
            r.layers() == Seq::<BoxLayer<I>>::empty(),
    {
        LayerGroup { layers: Vec::new() }
    }

    /// Adds a layer after the others.
    pub fn add_layer<L: Layer<I> + 'static>(&mut self, layer: L)
        ensures
            final(self).len() == old(self).len() + 1,
            final(self).layers().len() == old(self).layers().len() + 1,
            final(self).layers().drop_last() == old(self).layers(),
            forall|before: I, after: I|
                #[trigger] final(self).layers().last().executes(before, after) == layer.executes(before, after),
    {
        let boxed = BoxLayer::new(layer);
        self.layers.push(boxed);
        assert(self.layers@.drop_last() == old(self).layers@);
    }
}

impl<I> Layer<I> for LayerGroup<I> {
    open spec fn executes(&self, before: I, after: I) -> bool {
        runs_through(self.layers(), before, after)
    }

    /// Executes every layer, in the order they were added.
    fn execute(&self, data: &mut I) {
        run_layers(&self.layers, data);
    }
}

/// Layer-group law: an empty group leaves its data as it is.
pub proof fn lemma_empty_group_keeps<I>(g: &LayerGroup<I>, before: I, after: I)
    requires
        g.layers().len() == 0,
    ensures
        g.executes(before, after) == (after == before),
{
}

/// Layer-group law: a group that had `layer` added runs the layers it had before, then
/// `layer` on what they gave.
pub proof fn lemma_added_layer_runs_last<I, L: Layer<I>>(
    g1: &LayerGroup<I>,
    g2: &LayerGroup<I>,
    layer: &L,
    before: I,
    after: I,
)
    requires
        g2.layers().len() == g1.layers().len() + 1,
        g2.layers().drop_last() == g1.layers(),
        forall|b: I, a: I| #[trigger] g2.layers().last().executes(b, a) == layer.executes(b, a),
    ensures
        g2.executes(before, after) == exists|mid: I| g1.executes(before, mid) && #[trigger] layer.executes(mid, after),
{
    let l2 = g2.layers();
    if g2.executes(before, after) {
        let mid = choose|mid: I| runs_through(l2.drop_last(), before, mid) && #[trigger] l2.last().executes(mid, after);
        assert(g1.executes(before, mid) && layer.executes(mid, after));
    }
    if exists|mid: I| g1.executes(before, mid) && #[trigger] layer.executes(mid, after) {
        let mid = choose|mid: I| g1.executes(before, mid) && #[trigger] layer.executes(mid, after);
        assert(l2.last().executes(mid, after));
        assert(runs_through(l2.drop_last(), before, mid));
    }
}

/// A group of response layers.
pub struct ResponseGroup {
    layers: Vec<BoxLayer<RawResponse>>,
}

impl ResponseGroup {
    /// The layers, in the order they run.
    pub closed spec fn layers(&self) -> Seq<BoxLayer<RawResponse>> {
        self.layers@
    }
}

impl Layer<RawResponse> for ResponseGroup {
    open spec fn executes(&self, before: RawResponse, after: RawResponse) -> bool {
        runs_through(self.layers(), before, after)
    }

    /// Executes every layer, in order.
    fn execute(&self, data: &mut RawResponse) {
        run_layers(&self.layers, data);
    }
}

impl<B: Send + Sync> Layer<Request<B>> for () {
    open spec fn executes(&self, before: Request<B>, after: Request<B>) -> bool {
        after == before
    }

    /// Leaves the request as it is.
    fn execute(&self, data: &mut Request<B>)
        ensures
            *final(data) == *old(data),
    {
    }
}

impl Layer<RawResponse> for () {
    open spec fn executes(&self, before: RawResponse, after: RawResponse) -> bool {
        after == before
    }

    /// Leaves the response as it is.
    fn execute(&self, data: &mut RawResponse)
        ensures
            *final(data) == *old(data),
    {
    }
}

/// Sets the content length header of outgoing responses that lack it.
pub struct SetContentLength;

/// What setting the content length does to a response: a response with a `content-length`
/// header stays as it is; any other gets one with the length of its body in decimal.
pub open spec fn content_length_set(before: RawResponse, after: RawResponse) -> bool {
    &&& after.spec_version() == before.spec_version()
    &&& after.spec_status() == before.spec_status()
    &&& after.spec_body() == before.spec_body()
    &&& if exists|i: int|
        0 <= i < before.spec_headers().len() && (#[trigger] before.spec_headers()[i]).0 == "content-length"@ {
        after.spec_headers() == before.spec_headers()
    } else {
        after.spec_headers() == before.spec_headers().push(
            ("content-length"@, decimal(before.spec_body()@.len())),
        )
    }
}

impl Layer<RawResponse> for SetContentLength {
    open spec fn executes(&self, before: RawResponse, after: RawResponse) -> bool {
        content_length_set(before, after)
    }

    /// Adds `content-length` with the body's length in decimal, unless already present.
    fn execute(&self, data: &mut RawResponse)
        ensures
            final(data).spec_version() == old(data).spec_version(),
            final(data).spec_status() == old(data).spec_status(),
            final(data).spec_body() == old(data).spec_body(),
            if exists|i: int|
                0 <= i < old(data).spec_headers().len() && (#[trigger] old(data).spec_headers()[i]).0
                    == "content-length"@ {
                final(data).spec_headers() == old(data).spec_headers()
            } else {
                final(data).spec_headers() == old(data).spec_headers().push(
                    ("content-length"@, decimal(old(data).spec_body()@.len())),
                )
            },
    {
        if data.contains_header("content-length") {
            return;
        }
        let len = decimal_string(data.body().len());
        data.add_header("content-length".to_owned(), len);
    }
}

/// The default layers for responses.
pub struct DefaultResponseGroup;

impl DefaultResponseGroup {
    /// A group holding `SetContentLength`: it sets the content length and does nothing else.
    pub fn new() -> (r: LayerGroup<RawResponse>)
        ensures
            r.len() == 1,
            r.layers().len() == 1,
            forall|before: RawResponse, after: RawResponse|
                #[trigger] r.layers()[0].executes(before, after) == content_length_set(before, after),
            forall|before: RawResponse, after: RawResponse|
                #[trigger] r.executes(before, after) == content_length_set(before, after),
    {
        let mut group = LayerGroup::new();
        group.add_layer(SetContentLength);
        assert forall|before: RawResponse, after: RawResponse|
            #[trigger] group.layers()[0].executes(before, after) == content_length_set(before, after) by {
            assert(group.layers().last() == group.layers()[0]);
            assert(group.layers().last().executes(before, after) == SetContentLength.executes(before, after));
        }
        assert forall|before: RawResponse, after: RawResponse|
            #[trigger] group.executes(before, after) == content_length_set(before, after) by {
            reveal_with_fuel(runs_through, 2);
            let ls = group.layers();
            assert(ls[0].executes(before, after) == content_length_set(before, after));
            assert(ls.drop_last() == Seq::<BoxLayer<RawResponse>>::empty());
            assert(ls.last() == ls[0]);
            if content_length_set(before, after) {
                assert(runs_through(ls.drop_last(), before, before));
                assert(ls.last().executes(before, after));
            }
        }
        group
    }
}

impl DefaultResponseGroup {
    /// A group holding `SetContentLength` and then `SetDate`: it sets the content length, then
    /// the date.
    pub fn with_date() -> (r: LayerGroup<RawResponse>)
        ensures
            r.layers().len() == 2,
            forall|before: RawResponse, after: RawResponse|
                #[trigger] r.layers()[0].executes(before, after) == content_length_set(before, after),
            forall|before: RawResponse, after: RawResponse|
                #[trigger] r.layers()[1].executes(before, after) == date_set(before, after),
    {
        let mut group = DefaultResponseGroup::new();
        let ghost first = group.layers();
        group.add_layer(SetDate);
        assert(group.layers()[0] == first[0]) by {
            assert(group.layers().drop_last() == first);
        }
        assert forall|before: RawResponse, after: RawResponse|
            #[trigger] group.layers()[1].executes(before, after) == date_set(before, after) by {
            assert(group.layers().last() == group.layers()[1]);
            assert(group.layers().last().executes(before, after) == SetDate.executes(before, after));
        }
        group
    }
}

/// `std::time::SystemTime`, carried through opaquely.
#[verifier::external_type_specification]
#[verifier::external_body]
pub struct ExSystemTime(std::time::SystemTime);

/// `std::time::SystemTime::now`: the time of the machine's clock. Which time it is is not
/// stated.
#[verifier::external_body]
fn system_time_now() -> std::time::SystemTime {
    std::time::SystemTime::now()
}

/// `SystemTime::duration_since(UNIX_EPOCH)`: the whole seconds and the nanoseconds since
/// 1970, `None` for a time before it. Nothing is stated of the values, which come from the
/// clock.
#[verifier::external_body]
fn since_unix_epoch(t: &std::time::SystemTime) -> (r: Option<(u64, u32)>) {
    t.duration_since(std::time::UNIX_EPOCH).ok().map(|d| (d.as_secs(), d.subsec_nanos()))
}

/// The RFC 2822 text that `chrono` writes for a time given in seconds and nanoseconds since
/// 1970, or `None` where it has none.
pub uninterp spec fn rfc2822_of(secs: i64, nanos: u32) -> Option<Seq<char>>;

/// `chrono::DateTime::<Utc>::from_timestamp`, then formatting with the `RFC2822` item into a
/// `String`: `None` for a time `chrono` cannot represent or RFC 2822 cannot write (a year
/// outside 0..=9999). The text, such as `Tue, 1 Jul 2003 10:52:37 +0000`, is made of visible
/// ASCII characters.
#[verifier::external_body]
fn rfc2822_at(secs: i64, nanos: u32) -> (r: Option<String>)
    ensures
        match (r, rfc2822_of(secs, nanos)) {
            (Some(t), Some(u)) => t@ == u && is_visible_text(u),
            (None, None) => true,
            _ => false,
        },
{
    let dt = chrono::DateTime::<chrono::Utc>::from_timestamp(secs, nanos)?;
    let items = [chrono::format::Item::Fixed(chrono::format::Fixed::RFC2822)];
    let mut out = String::new();
    match write!(out, "{}", dt.format_with_items(items.iter())) {
        Ok(()) => Some(out),
        Err(_) => None,
    }
}

/// The RFC 2822 text of a time given in seconds and nanoseconds since 1970: `None` when the
/// seconds do not fit in an `i64` or `chrono` has no such text for the time.
pub fn date_text(secs: u64, nanos: u32) -> (r: Option<String>)
    ensures
        match r {
            Some(t) => secs <= i64::MAX && rfc2822_of(secs as i64, nanos) == Some(t@) && is_visible_text(t@),
            None => secs > i64::MAX || rfc2822_of(secs as i64, nanos) is None,
        },
{
    if secs <= 9223372036854775807u64 {
        rfc2822_at(secs as i64, nanos)
    } else {
        None
    }
}

/// What setting the date to `date` does to a response: the `date` header is set to it, as
/// `http` inserts a header, or the response is left as it is when there is no date; the
/// version, status and body stay.
pub open spec fn date_set_to(before: RawResponse, after: RawResponse, date: Option<Seq<char>>) -> bool {
    &&& after.spec_version() == before.spec_version()
    &&& after.spec_status() == before.spec_status()
    &&& after.spec_body() == before.spec_body()
    &&& match date {
        Some(d) => after.spec_headers() == insert_header(before.spec_headers(), "date"@, d),
        None => after.spec_headers() == before.spec_headers(),
    }
}

/// Sets the `date` header of a response to `date`, replacing any value it had, or leaves the
/// response as it is when `date` is `None`.
pub fn set_date(data: &mut RawResponse, date: Option<String>)
    requires
        date matches Some(d) ==> is_visible_text(d@),
    ensures
        date_set_to(
            *old(data),
            *final(data),
            match date {
                Some(d) => Some(d@),
                None => None,
            },
        ),
{
    match date {
        Some(d) => {
            let ghost dv = d@;
            data.set_header("date".to_owned(), d);
            assert(insert_header(old(data).spec_headers(), "date"@, dv) == data.spec_headers());
        },
        None => {},
    }
}

/// Sets the `date` header of outgoing responses to the current time.
pub struct SetDate;

/// What setting the date does to a response: the `date` header is set, as `http` inserts a
/// header, to the RFC 2822 text of some time, or the response is left as it is when the clock
/// gives no time RFC 2822 can write; the rest stays.
pub open spec fn date_set(before: RawResponse, after: RawResponse) -> bool {
    ||| date_set_to(before, after, None)
    ||| exists|secs: i64, nanos: u32| #[trigger] rfc2822_of(secs, nanos) is Some && date_set_to(before, after, rfc2822_of(secs, nanos))
}

impl Layer<RawResponse> for SetDate {
    open spec fn executes(&self, before: RawResponse, after: RawResponse) -> bool {
        date_set(before, after)
    }

    /// Sets `date`, replacing any value it had, to the time of the call in RFC 2822 form;
    /// leaves the response as it is when the clock reads before 1970 or gives no such time.
    fn execute(&self, data: &mut RawResponse) {
        let now = system_time_now();
        match since_unix_epoch(&now) {
            None => {},
            Some((secs, nanos)) => {
                let date = date_text(secs, nanos);
                let ghost dv = match &date {
                    Some(d) => Some(d@),
                    None => None,
                };
                set_date(data, date);
                proof {
                    if dv is Some {
                        assert(rfc2822_of(secs as i64, nanos) is Some);
                    }
                }
            },
        }
    }
}

} // verus!
