use vstd::prelude::*;

verus! {

/// A contiguous half-open index window `[start, stop)` into an ordered
/// collection.  The same convention is used everywhere: `start` is the first
/// index covered, `stop` the first index past the window.
///
/// The type itself carries no invariant; callers are responsible for
/// clamping.  A window is well placed inside a collection of length
/// `total_len` when [`RangeWindow::spec_bounded`] holds.
#[derive(Clone, Copy, Debug, PartialEq, Eq, Structural)]
pub struct RangeWindow {
    pub start: usize,
    pub stop: usize,
}

impl RangeWindow {
    /// The endpoints are ordered and lie inside a collection of length
    /// `total_len`.
    pub open spec fn spec_bounded(self, total_len: int) -> bool {
        self.start <= self.stop <= total_len
    }

    /// Number of indices covered, as a mathematical integer (negative for an
    /// inverted window).
    pub open spec fn spec_span(self) -> int {
        self.stop - self.start
    }

    /// The reset state `(0, 0)`: no window has been fetched yet.
    pub open spec fn spec_is_reset(self) -> bool {
        self.start == 0 && self.stop == 0
    }

    pub fn new(start: usize, stop: usize) -> (w: RangeWindow)
        ensures
            w == (RangeWindow { start, stop }),
    {
        RangeWindow { start, stop }
    }

    /// The empty window `(0, 0)`, the state of a list before its first fetch
    /// and after a selection change.
    pub fn empty() -> (w: RangeWindow)
        ensures
            w.spec_is_reset(),
            w == (RangeWindow { start: 0, stop: 0 }),
    {
        RangeWindow { start: 0, stop: 0 }
    }

    /// Number of indices covered.
    pub fn span(&self) -> (n: usize)
        requires
            self.start <= self.stop,
        ensures
            n == self.spec_span(),
    {
        self.stop - self.start
    }

    /// Whether index `i` falls inside the window.
    pub fn contains(&self, i: usize) -> (r: bool)
        ensures
            r == (self.start <= i < self.stop),
    {
        self.start <= i && i < self.stop
    }

    /// Whether this is the reset window `(0, 0)`.
    pub fn is_reset(&self) -> (r: bool)
        ensures
            r == self.spec_is_reset(),
    {
        self.start == 0 && self.stop == 0
    }
}

} // verus!
