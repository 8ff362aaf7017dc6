use crate::severity::RemoteLevel;
use vstd::prelude::*;

verus! {

/// A compact record of a past log event, kept to give context to a later report.
#[derive(Debug)]
pub struct Breadcrumb {
    pub level: RemoteLevel,
    /// The subsystem that emitted the event (the record's target).
    pub category: String,
    pub message: String,
    /// When the event was logged, in milliseconds since the Unix epoch.
    pub timestamp_ms: i64,
}

/// The buffer after appending `b`.
pub open spec fn spec_record(buf: Seq<Breadcrumb>, b: Breadcrumb) -> Seq<Breadcrumb> {
    buf.push(b)
}

/// What a drain hands out, and what stays behind.
pub open spec fn spec_drain(buf: Seq<Breadcrumb>) -> (Seq<Breadcrumb>, Seq<Breadcrumb>) {
    (buf, Seq::empty())
}

/// The buffer after appending each of `bs`, in order.
pub open spec fn spec_record_all(buf: Seq<Breadcrumb>, bs: Seq<Breadcrumb>) -> Seq<Breadcrumb>
    decreases bs.len(),
{
    if bs.len() == 0 {
        buf
    } else {
        spec_record_all(spec_record(buf, bs[0]), bs.drop_first())
    }
}

/// Recent breadcrumbs in the order they were recorded.
pub struct BreadcrumbBuffer {
    items: Vec<Breadcrumb>,
}

impl View for BreadcrumbBuffer {
    type V = Seq<Breadcrumb>;

    closed spec fn view(&self) -> Seq<Breadcrumb> {
        self.items@
    }
}

impl BreadcrumbBuffer {
    pub fn new() -> (r: BreadcrumbBuffer)
        ensures
            r@ == Seq::<Breadcrumb>::empty(),
    {
        BreadcrumbBuffer { items: Vec::new() }
    }

    pub fn len(&self) -> (r: usize)
        ensures
            r == self@.len(),
    {
        self.items.len()
    }

    /// Appends a breadcrumb at the tail.
    pub fn record(&mut self, b: Breadcrumb)
        ensures
            final(self)@ == spec_record(old(self)@, b),
    {
        self.items.push(b);
    }

    /// Removes and returns every buffered breadcrumb in recording order,
    /// leaving the buffer empty.
    pub fn drain(&mut self) -> (r: Vec<Breadcrumb>)
        ensures
            (r@, final(self)@) == spec_drain(old(self)@),
    {
        let mut out: Vec<Breadcrumb> = Vec::new();
        std::mem::swap(&mut self.items, &mut out);
        out
    }
}

/// Recording a sequence of breadcrumbs appends them in order.
pub proof fn lemma_record_all_appends(buf: Seq<Breadcrumb>, bs: Seq<Breadcrumb>)
    ensures
        spec_record_all(buf, bs) == buf + bs,
    decreases bs.len(),
{
    if bs.len() == 0 {
        assert(buf + bs =~= buf);
    } else {
        lemma_record_all_appends(spec_record(buf, bs[0]), bs.drop_first());
        assert(buf.push(bs[0]) + bs.drop_first() =~= buf + bs);
    }
}

/// Recording `bs` into an empty buffer and then draining returns exactly
/// `bs` in order, and a second drain returns nothing.
pub proof fn lemma_record_then_drain(bs: Seq<Breadcrumb>)
    ensures
        spec_drain(spec_record_all(Seq::empty(), bs)).0 == bs,
        spec_drain(spec_drain(spec_record_all(Seq::empty(), bs)).1).0 == Seq::<Breadcrumb>::empty(),
{
    lemma_record_all_appends(Seq::empty(), bs);
    assert(Seq::<Breadcrumb>::empty() + bs =~= bs);
}

/// With one drain among the recordings, each breadcrumb recorded before the
/// drain is returned by it, each recorded after stays for the next drain, and
/// together they are everything recorded, each once, in order.
pub proof fn lemma_drain_interleaving(buf: Seq<Breadcrumb>, before: Seq<Breadcrumb>, after: Seq<Breadcrumb>)
    ensures
        ({
            let drained = spec_drain(spec_record_all(buf, before));
            &&& drained.0 == buf + before
            &&& spec_record_all(drained.1, after) == after
            &&& drained.0 + spec_record_all(drained.1, after) == buf + before + after
        }),
{
    lemma_record_all_appends(buf, before);
    lemma_record_all_appends(Seq::empty(), after);
    assert(Seq::<Breadcrumb>::empty() + after =~= after);
}

} // verus!
