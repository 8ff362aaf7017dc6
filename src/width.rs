use vstd::prelude::*;
use vstd::string::StrSliceExecFns;

verus! {

/// The widest target label seen so far, in characters; it only grows.
pub struct WidthTracker {
    pub max: usize,
}

impl WidthTracker {
    pub fn new() -> (r: WidthTracker)
        ensures
            r.max == 0,
    {
        WidthTracker { max: 0 }
    }

    /// Returns the larger of the stored width and the character count
    /// of `target`, and stores that value.
    pub fn observe(&mut self, target: &str) -> (r: usize)
        ensures
            r as int == spec_observed(old(self).max as int, target@.len() as int),
            final(self).max == r,
    {
        let len = target.unicode_len();
        if self.max < len {
            self.max = len;
            len
        } else {
            self.max
        }
    }
}

/// The width reported after observing a label of `len` characters when `max` was stored.
pub open spec fn spec_observed(max: int, len: int) -> int {
    if max < len { len } else { max }
}

/// The widths returned by observing labels of the given lengths in turn,
/// starting from a stored width of `max`.
pub open spec fn spec_widths(max: int, lens: Seq<int>) -> Seq<int>
    decreases lens.len(),
{
    if lens.len() == 0 {
        Seq::empty()
    } else {
        let w = spec_observed(max, lens[0]);
        seq![w] + spec_widths(w, lens.drop_first())
    }
}

/// Over any sequence of observations the returned widths never decrease,
/// never fall below the stored width they started from, and each is at
/// least the length of the label it was returned for.
pub proof fn lemma_observe_monotonic(max: int, lens: Seq<int>)
    ensures
        spec_widths(max, lens).len() == lens.len(),
        forall|i: int| 0 <= i < lens.len() ==> #[trigger] spec_widths(max, lens)[i] >= lens[i],
        forall|i: int| 0 <= i < lens.len() ==> #[trigger] spec_widths(max, lens)[i] >= max,
        forall|i: int, j: int|
            0 <= i <= j < lens.len() ==> #[trigger] spec_widths(max, lens)[i] <= #[trigger] spec_widths(max, lens)[j],
    decreases lens.len(),
{
    if lens.len() > 0 {
        let w = spec_observed(max, lens[0]);
        let rest = lens.drop_first();
        lemma_observe_monotonic(w, rest);
        let ws = spec_widths(max, lens);
        assert(ws == seq![w] + spec_widths(w, rest));
        assert forall|i: int| 0 <= i < lens.len() implies #[trigger] ws[i] >= lens[i] && ws[i] >= max by {
            if i > 0 {
                assert(ws[i] == spec_widths(w, rest)[i - 1]);
                assert(lens[i] == rest[i - 1]);
            }
        }
        assert forall|i: int, j: int| 0 <= i <= j < lens.len() implies #[trigger] ws[i] <= #[trigger] ws[j] by {
            if i > 0 {
                assert(ws[i] == spec_widths(w, rest)[i - 1]);
            }
            if j > 0 {
                assert(ws[j] == spec_widths(w, rest)[j - 1]);
            }
        }
    }
}

} // verus!
