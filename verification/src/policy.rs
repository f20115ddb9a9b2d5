use vstd::prelude::*;

use crate::window::RangeWindow;

verus! {

/// Default batch size for chat lists.
pub const CHAT_LIST_BATCH_SIZE: usize = 10;

/// Default batch size for message lists.
pub const MESSAGE_LIST_BATCH_SIZE: usize = 30;

/// Default pixel distance from an edge at which loading starts.
pub const TOP_THRESHOLD_PIXELS: i32 = 20;

/// The smaller of two lengths.
pub open spec fn umin(a: usize, b: usize) -> usize {
    if a <= b {
        a
    } else {
        b
    }
}

/// Scroll geometry of the viewport at the moment of a scroll event, in
/// pixels: offset of the viewport inside the rendered content, total height
/// of the rendered content, and height of the viewport itself.
#[derive(Clone, Copy, Debug, PartialEq, Eq, Structural)]
pub struct ScrollMetrics {
    pub scroll_top: i32,
    pub scroll_height: i32,
    pub client_height: i32,
}

/// The decision rule of the windowing protocol: given the current window,
/// the collection's total length and the scroll position, pick the next
/// window to fetch, or decide that no fetch is needed.
///
/// The window grows and shifts in steps of `batch_size` items and is kept at
/// most three batches long.  A scroll edge counts as reached when it is
/// closer than `top_threshold_px` pixels.
#[derive(Clone, Copy, Debug, PartialEq, Eq, Structural)]
pub struct WindowPolicy {
    pub batch_size: usize,
    pub top_threshold_px: i32,
}

impl WindowPolicy {
    /// Well-formed configuration: batches are not empty, three batches fit
    /// in `usize`, and the edge threshold is not negative.
    pub open spec fn wf(self) -> bool {
        &&& 1 <= self.batch_size
        &&& 3 * self.batch_size <= usize::MAX
        &&& 0 <= self.top_threshold_px
    }

    pub fn new(batch_size: usize, top_threshold_px: i32) -> (p: WindowPolicy)
        requires
            1 <= batch_size,
            3 * batch_size <= usize::MAX,
            0 <= top_threshold_px,
        ensures
            p == (WindowPolicy { batch_size, top_threshold_px }),
            p.wf(),
    {
        WindowPolicy { batch_size, top_threshold_px }
    }

    /// The largest span a window may keep: three batches.
    pub open spec fn spec_max_window(self) -> int {
        3 * self.batch_size
    }

    pub fn max_window_size(&self) -> (n: usize)
        requires
            self.wf(),
        ensures
            n == self.spec_max_window(),
    {
        3 * self.batch_size
    }

    /// The window fetched first: the newest `batch_size` items, because chat
    /// views open on the most recent content.
    pub open spec fn spec_initial_window(self, total_len: usize) -> RangeWindow {
        RangeWindow { start: total_len.saturating_sub(self.batch_size), stop: total_len }
    }

    /// The window for a collection shorter than three batches: everything,
    /// `(0, 3 * batch_size)` clamped into the collection.
    pub open spec fn spec_full_window(self, total_len: usize) -> RangeWindow {
        RangeWindow { start: 0, stop: umin((3 * self.batch_size) as usize, total_len) }
    }

    /// One step toward the top: the window start moves up by one batch; when
    /// the current span already exceeds three batches, one batch is trimmed
    /// off the bottom end.
    pub open spec fn spec_grow_up(self, current: RangeWindow) -> RangeWindow {
        let start = current.start.saturating_sub(self.batch_size);
        let stop = if current.stop - current.start > self.spec_max_window() {
            umin(current.stop.saturating_sub(self.batch_size), start.saturating_add(self.batch_size))
        } else {
            current.stop
        };
        RangeWindow { start, stop }
    }

    /// One step toward the bottom: the window stop moves down by one batch,
    /// clamped to the collection; when the current span already exceeds
    /// three batches, one batch is trimmed off the top end.
    pub open spec fn spec_grow_down(self, current: RangeWindow, total_len: usize) -> RangeWindow {
        let stop = umin(current.stop.saturating_add(self.batch_size), total_len);
        let start = if current.stop - current.start > self.spec_max_window() {
            umin(current.start.saturating_add(self.batch_size), stop.saturating_sub(self.batch_size))
        } else {
            current.start
        };
        RangeWindow { start, stop }
    }

    /// The scroll position is within the threshold of the loaded top edge.
    pub open spec fn spec_near_top(self, m: ScrollMetrics) -> bool {
        m.scroll_top < self.top_threshold_px
    }

    /// The scroll position is within the threshold of the loaded bottom
    /// edge.
    pub open spec fn spec_near_bottom(self, m: ScrollMetrics) -> bool {
        m.scroll_height - m.scroll_top <= m.client_height + self.top_threshold_px
    }

    /// The candidate window for one scroll event, in precedence order: an
    /// uninitialized window of a non-empty collection loads the newest
    /// batch; a collection shorter than three batches loads whole; a window
    /// not at the top yet, scrolled near the top, grows upward; a scroll
    /// near the bottom grows the window downward; otherwise nothing.
    pub open spec fn spec_candidate(
        self,
        current: RangeWindow,
        total_len: usize,
        m: ScrollMetrics,
    ) -> Option<RangeWindow> {
        if current.spec_is_reset() && total_len > 0 {
            Some(self.spec_initial_window(total_len))
        } else if total_len < self.spec_max_window() {
            Some(self.spec_full_window(total_len))
        } else if self.spec_near_top(m) && current.start > 0 {
            Some(self.spec_grow_up(current))
        } else if self.spec_near_bottom(m) {
            Some(self.spec_grow_down(current, total_len))
        } else {
            None
        }
    }

    /// The window to fetch: the candidate, unless it equals the current
    /// window, in which case the fetch is suppressed as redundant.
    pub open spec fn spec_next_window(
        self,
        current: RangeWindow,
        total_len: usize,
        m: ScrollMetrics,
    ) -> Option<RangeWindow> {
        match self.spec_candidate(current, total_len, m) {
            Some(w) => if w == current {
                None
            } else {
                Some(w)
            },
            None => None,
        }
    }

    /// Decide, for one scroll event, whether to fetch and which window.
    ///
    /// Pure computation: every subtraction saturates and every grown edge is
    /// clamped, so any inputs are accepted and `None` comes back when
    /// nothing needs doing.
    pub fn next_window(
        &self,
        current: RangeWindow,
        total_len: usize,
        m: ScrollMetrics,
    ) -> (r: Option<RangeWindow>)
        requires
            self.wf(),
        ensures
            r == self.spec_next_window(current, total_len, m),
    {
        let max_window = 3 * self.batch_size;
        let candidate: Option<RangeWindow> = if current.start == 0 && current.stop == 0
            && total_len > 0 {
            Some(RangeWindow { start: total_len.saturating_sub(self.batch_size), stop: total_len })
        } else if total_len < max_window {
            Some(RangeWindow { start: 0, stop: if max_window <= total_len { max_window } else { total_len } })
        } else if m.scroll_top < self.top_threshold_px && current.start > 0 {
            let span = current.stop.saturating_sub(current.start);
            let start = current.start.saturating_sub(self.batch_size);
            let stop = if span > max_window {
                let from_bottom = current.stop.saturating_sub(self.batch_size);
                let one_batch = start.saturating_add(self.batch_size);
                if from_bottom <= one_batch {
                    from_bottom
                } else {
                    one_batch
                }
            } else {
                current.stop
            };
            Some(RangeWindow { start, stop })
        } else {
            let scroll_height = m.scroll_height as i64;
            let scroll_top = m.scroll_top as i64;
            let client_height = m.client_height as i64;
            let threshold = self.top_threshold_px as i64;
            if scroll_height - scroll_top <= client_height + threshold {
                let grown = current.stop.saturating_add(self.batch_size);
                let stop = if grown <= total_len {
                    grown
                } else {
                    total_len
                };
                let span = current.stop.saturating_sub(current.start);
                let start = if span > max_window {
                    let from_top = current.start.saturating_add(self.batch_size);
                    let one_batch = stop.saturating_sub(self.batch_size);
                    if from_top <= one_batch {
                        from_top
                    } else {
                        one_batch
                    }
                } else {
                    current.start
                };
                Some(RangeWindow { start, stop })
            } else {
                None
            }
        };
        match candidate {
            Some(w) => if w.start == current.start && w.stop == current.stop {
                None
            } else {
                Some(w)
            },
            None => None,
        }
    }
}

/// The window after `n` upward steps of the policy, each one batch closer to
/// the top of the collection.
pub open spec fn spec_grow_up_iter(p: WindowPolicy, w: RangeWindow, n: nat) -> RangeWindow
    decreases n,
{
    if n == 0 {
        w
    } else {
        spec_grow_up_iter(p, p.spec_grow_up(w), (n - 1) as nat)
    }
}

/// How many upward steps of `batch` indices it takes to bring `start` to 0.
pub open spec fn spec_batches_above(start: usize, batch: usize) -> nat
    decreases start,
{
    if batch == 0 || start == 0 {
        0
    } else {
        1 + spec_batches_above(start.saturating_sub(batch), batch)
    }
}

/// A computed window never inverts its endpoints and never reaches past the
/// end of the collection: for a well-placed current window, any window the
/// policy asks to fetch satisfies `start <= stop <= total_len`.
pub proof fn lemma_next_window_bounded(
    p: WindowPolicy,
    current: RangeWindow,
    total_len: usize,
    m: ScrollMetrics,
)
    requires
        p.wf(),
        current.spec_bounded(total_len as int),
    ensures
        match p.spec_next_window(current, total_len, m) {
            Some(w) => w.spec_bounded(total_len as int),
            None => true,
        },
{
}

/// The decision is a function of its arguments and nothing else: any two
/// results that [`WindowPolicy::next_window`] can return for the same
/// inputs are equal.
pub proof fn lemma_next_window_deterministic(
    p: WindowPolicy,
    current: RangeWindow,
    total_len: usize,
    m: ScrollMetrics,
    r1: Option<RangeWindow>,
    r2: Option<RangeWindow>,
)
    requires
        call_ensures(WindowPolicy::next_window, (&p, current, total_len, m), r1),
        call_ensures(WindowPolicy::next_window, (&p, current, total_len, m), r2),
    ensures
        r1 == r2,
{
}

/// The policy never asks to fetch the window that is already loaded: a
/// candidate equal to the current window is suppressed, so reissuing the
/// same scroll event after the fetch settles cannot cause a second fetch.
pub proof fn lemma_next_window_no_refetch(
    p: WindowPolicy,
    current: RangeWindow,
    total_len: usize,
    m: ScrollMetrics,
)
    ensures
        match p.spec_next_window(current, total_len, m) {
            Some(w) => w != current,
            None => true,
        },
{
}

/// For a collection shorter than three batches, the policy always settles on
/// the whole collection `(0, total_len)`, whatever the scroll position: it
/// asks for exactly that window, or for nothing when that window is already
/// loaded.  The one state excluded is the uninitialized window of a
/// collection longer than one batch, which first loads the newest batch.
pub proof fn lemma_small_collection_loads_whole(
    p: WindowPolicy,
    current: RangeWindow,
    total_len: usize,
    m: ScrollMetrics,
)
    requires
        p.wf(),
        total_len < p.spec_max_window(),
        !(current.spec_is_reset() && total_len > p.batch_size),
    ensures
        p.spec_next_window(current, total_len, m) == (if current == (RangeWindow {
            start: 0,
            stop: total_len,
        }) {
            None::<RangeWindow>
        } else {
            Some(RangeWindow { start: 0, stop: total_len })
        }),
{
}

/// One near-top scroll step from a window that is not yet at the top: the
/// policy asks for exactly the upward-grown window, whose start is one batch
/// higher (clamped to 0), still inside the collection.
pub proof fn lemma_top_scroll_step(
    p: WindowPolicy,
    current: RangeWindow,
    total_len: usize,
    m: ScrollMetrics,
)
    requires
        p.wf(),
        current.spec_bounded(total_len as int),
        p.spec_max_window() <= total_len,
        p.spec_near_top(m),
        current.start > 0,
    ensures
        ({
            let w = p.spec_grow_up(current);
            &&& p.spec_next_window(current, total_len, m) == Some(w)
            &&& w.start == current.start.saturating_sub(p.batch_size)
            &&& w.start < current.start
            &&& w.spec_bounded(total_len as int)
        }),
{
}

/// Scrolling to the top repeatedly drives the window start to 0, one batch
/// at a time and never past index 0: while the start is positive the policy
/// asks for the next upward step, and after `spec_batches_above` steps the
/// start is exactly 0.
pub proof fn lemma_top_scroll_reaches_top(
    p: WindowPolicy,
    current: RangeWindow,
    total_len: usize,
    m: ScrollMetrics,
)
    requires
        p.wf(),
        current.spec_bounded(total_len as int),
        p.spec_max_window() <= total_len,
        p.spec_near_top(m),
    ensures
        spec_grow_up_iter(p, current, spec_batches_above(current.start, p.batch_size)).start == 0,
        forall|k: nat|
            k < spec_batches_above(current.start, p.batch_size) ==> {
                let w = #[trigger] spec_grow_up_iter(p, current, k);
                &&& w.start > 0
                &&& p.spec_next_window(w, total_len, m) == Some(
                    spec_grow_up_iter(p, current, (k + 1) as nat),
                )
            },
    decreases current.start,
{
    let n = spec_batches_above(current.start, p.batch_size);
    if current.start == 0 {
        assert(n == 0);
    } else {
        lemma_top_scroll_step(p, current, total_len, m);
        let w = p.spec_grow_up(current);
        lemma_top_scroll_reaches_top(p, w, total_len, m);
        assert(spec_batches_above(w.start, p.batch_size) == n - 1);
        assert forall|k: nat| k < n implies {
            let v = #[trigger] spec_grow_up_iter(p, current, k);
            &&& v.start > 0
            &&& p.spec_next_window(v, total_len, m) == Some(
                spec_grow_up_iter(p, current, (k + 1) as nat),
            )
        } by {
            if k == 0 {
                assert(spec_grow_up_iter(p, current, 0) == current);
                assert(spec_grow_up_iter(p, current, 1nat) == spec_grow_up_iter(p, w, 0nat));
            } else {
                let j = (k - 1) as nat;
                assert(j < n - 1);
                assert(spec_grow_up_iter(p, current, k) == spec_grow_up_iter(p, w, j));
                assert(spec_grow_up_iter(p, current, (k + 1) as nat) == spec_grow_up_iter(
                    p,
                    w,
                    (j + 1) as nat,
                ));
            }
        }
    }
}

} // verus!
