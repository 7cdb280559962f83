//! The inclusive time window that emitted sentences must fall into.

use vstd::prelude::*;

use crate::time::Timestamp;

verus! {

/// An inclusive `[start, end]` range of absolute timestamps.
#[derive(Clone, Copy, PartialEq, Eq, Structural, Debug)]
pub struct Window {
    pub start: Timestamp,
    pub end: Timestamp,
}

impl Window {
    /// Both bounds lie in the supported range and do not cross.
    pub open spec fn valid(self) -> bool {
        &&& self.start.valid()
        &&& self.end.valid()
        &&& self.start.as_secs() <= self.end.as_secs()
    }

    /// Membership: both bounds are inclusive.
    pub open spec fn spec_contains(self, t: Timestamp) -> bool {
        self.start.as_secs() <= t.as_secs() <= self.end.as_secs()
    }

    /// Tests whether an instant lies inside the window.
    pub fn contains(&self, t: Timestamp) -> (r: bool)
        requires
            self.valid(),
            t.valid(),
        ensures
            r == self.spec_contains(t),
    {
        self.start.le(t) && t.le(self.end)
    }
}

/// Window bounds are inclusive: an instant equal to either bound lies inside,
/// and an instant one second outside either bound lies outside.
pub proof fn lemma_window_boundaries(w: Window, t: Timestamp)
    requires
        w.valid(),
    ensures
        w.spec_contains(w.start),
        w.spec_contains(w.end),
        t.as_secs() == w.start.as_secs() - 1 ==> !w.spec_contains(t),
        t.as_secs() == w.end.as_secs() + 1 ==> !w.spec_contains(t),
{
}

} // verus!
