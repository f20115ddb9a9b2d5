use vstd::prelude::*;

use crate::policy::{ScrollMetrics, WindowPolicy};
use crate::window::RangeWindow;

verus! {

/// A range fetch sent toward the server: the half-open window to load, and
/// the generation token of the client state that issued it.
#[derive(Clone, Copy, Debug, PartialEq, Eq, Structural)]
pub struct FetchRequest {
    pub start_index: usize,
    pub stop_index: usize,
    pub token: u64,
}

/// A range fetch answered by the server: the window actually applied after
/// clamping, the collection's total length, the items of that window in
/// order, and the token of the request being answered.
#[derive(Clone, Debug, PartialEq, Eq)]
pub struct FetchResponse<T> {
    pub range: RangeWindow,
    pub total_len: usize,
    pub items: Vec<T>,
    pub token: u64,
}

impl<T> FetchResponse<T> {
    /// Internally consistent response: the applied range lies inside the
    /// reported collection and carries exactly one item per covered index.
    pub open spec fn spec_consistent(self) -> bool {
        &&& self.range.spec_bounded(self.total_len as int)
        &&& self.items@.len() == self.range.spec_span()
    }
}

/// What became of a received response.
#[derive(Clone, Copy, Debug, PartialEq, Eq, Structural)]
pub enum ResponseOutcome {
    /// The cached window, length and items were replaced by the response.
    Applied,
    /// The response answered a request from before the last selection
    /// change; it was discarded and the cache kept.
    Stale,
    /// The response contradicted itself (range outside its own collection
    /// length, or a wrong item count); it was dropped as a protocol
    /// violation, and only the loading gate was cleared so a later scroll
    /// may retry.
    Malformed,
}

/// Client-side state of one windowed list: the cached window with its items,
/// the single-flight loading gate, the one-shot snap-to-bottom flag, and the
/// generation token that detects responses made stale by a selection change.
///
/// One coordinator serves one list instance; scroll events, responses and
/// selection changes are fed to it one at a time.
pub struct FetchCoordinator<T> {
    pub policy: WindowPolicy,
    pub window: RangeWindow,
    pub total_len: usize,
    pub items: Vec<T>,
    pub loading: bool,
    pub scroll_bottom_next: bool,
    pub generation: u64,
}

impl<T> FetchCoordinator<T> {
    /// The coordinator's invariant: a well-formed policy, a cached window
    /// that lies inside the cached collection length, and exactly one cached
    /// item per covered index.
    pub open spec fn wf(self) -> bool {
        &&& self.policy.wf()
        &&& self.window.spec_bounded(self.total_len as int)
        &&& self.items@.len() == self.window.spec_span()
    }

    /// A fresh list instance: empty window, nothing loading, and the next
    /// render snapped to the bottom.
    pub fn new(policy: WindowPolicy) -> (c: FetchCoordinator<T>)
        requires
            policy.wf(),
        ensures
            c.wf(),
            c.policy == policy,
            c.window.spec_is_reset(),
            c.total_len == 0,
            c.items@.len() == 0,
            !c.loading,
            c.scroll_bottom_next,
            c.generation == 0,
    {
        FetchCoordinator {
            policy,
            window: RangeWindow::empty(),
            total_len: 0,
            items: Vec::new(),
            loading: false,
            scroll_bottom_next: true,
            generation: 0,
        }
    }

    /// Handle one scroll event: ask the policy for the next window and, when
    /// there is one, open the loading gate and emit the request for it.
    ///
    /// A scroll event that arrives while `loading` is true yields no
    /// request and leaves the state as it was; `loading` is cleared again
    /// by a response, a fetch failure, or a new selection.
    pub fn on_scroll(&mut self, m: ScrollMetrics) -> (r: Option<FetchRequest>)
        requires
            old(self).wf(),
        ensures
            final(self).wf(),
            final(self).policy == old(self).policy,
            final(self).window == old(self).window,
            final(self).total_len == old(self).total_len,
            final(self).items == old(self).items,
            final(self).scroll_bottom_next == old(self).scroll_bottom_next,
            final(self).generation == old(self).generation,
            old(self).loading ==> r is None && final(self).loading,
            !old(self).loading ==> match old(self).policy.spec_next_window(
                old(self).window,
                old(self).total_len,
                m,
            ) {
                Some(w) => {
                    &&& r == Some(
                        FetchRequest {
                            start_index: w.start,
                            stop_index: w.stop,
                            token: old(self).generation,
                        },
                    )
                    &&& final(self).loading
                },
                None => r is None && !final(self).loading,
            },
    {
        if self.loading {
            return None;
        }
        match self.policy.next_window(self.window, self.total_len, m) {
            Some(w) => {
                self.loading = true;
                Some(FetchRequest { start_index: w.start, stop_index: w.stop, token: self.generation })
            },
            None => None,
        }
    }

    /// Absorb a fetch response.
    ///
    /// A response whose token no longer equals the current generation was
    /// made stale by a selection change: it is discarded whole, and the
    /// state (the reset window included) is left exactly as it was.  An
    /// inconsistent response is dropped rather than rendered, clearing only
    /// the loading gate.  Otherwise the response is authoritative: it
    /// overwrites the cached window, total length and items, and clears
    /// `loading`.
    pub fn on_response(&mut self, resp: FetchResponse<T>) -> (r: ResponseOutcome)
        requires
            old(self).wf(),
        ensures
            final(self).wf(),
            final(self).policy == old(self).policy,
            final(self).scroll_bottom_next == old(self).scroll_bottom_next,
            final(self).generation == old(self).generation,
            resp.token != old(self).generation ==> r == ResponseOutcome::Stale && *final(self)
                == *old(self),
            resp.token == old(self).generation && !resp.spec_consistent() ==> {
                &&& r == ResponseOutcome::Malformed
                &&& !final(self).loading
                &&& final(self).window == old(self).window
                &&& final(self).total_len == old(self).total_len
                &&& final(self).items == old(self).items
            },
            resp.token == old(self).generation && resp.spec_consistent() ==> {
                &&& r == ResponseOutcome::Applied
                &&& !final(self).loading
                &&& final(self).window == resp.range
                &&& final(self).total_len == resp.total_len
                &&& final(self).items == resp.items
            },
    {
        if resp.token != self.generation {
            return ResponseOutcome::Stale;
        }
        let consistent = resp.range.start <= resp.range.stop && resp.range.stop <= resp.total_len
            && resp.items.len() == resp.range.stop - resp.range.start;
        if consistent {
            self.window = resp.range;
            self.total_len = resp.total_len;
            self.items = resp.items;
            self.loading = false;
            ResponseOutcome::Applied
        } else {
            self.loading = false;
            ResponseOutcome::Malformed
        }
    }

    /// Absorb a failed fetch (network error, or the server reporting that
    /// nothing is selected): the cached window stays as it was and only the
    /// loading gate is cleared, so the next scroll event may retry.
    pub fn on_fetch_error(&mut self)
        ensures
            *final(self) == (FetchCoordinator { loading: false, ..*old(self) }),
    {
        self.loading = false;
    }

    /// The selected list identity changed: reset the window to `(0, 0)`,
    /// close the loading gate, arm the snap-to-bottom flag for the next
    /// render, and move to a fresh generation so that any response still in
    /// flight is recognized as stale.
    pub fn on_selection_changed(&mut self)
        ensures
            final(self).wf() == old(self).policy.wf(),
            final(self).policy == old(self).policy,
            final(self).window.spec_is_reset(),
            final(self).total_len == 0,
            final(self).items@.len() == 0,
            !final(self).loading,
            final(self).scroll_bottom_next,
            final(self).generation != old(self).generation,
            final(self).generation == (if old(self).generation == u64::MAX {
                0u64
            } else {
                (old(self).generation + 1) as u64
            }),
    {
        self.window = RangeWindow::empty();
        self.total_len = 0;
        self.items = Vec::new();
        self.loading = false;
        self.scroll_bottom_next = true;
        self.generation = if self.generation == u64::MAX {
            0
        } else {
            self.generation + 1
        };
    }

    /// The request that fetches the cached window over again, under the
    /// current generation: issued when a pushed event reports that the
    /// collection changed underneath the window.
    pub fn refresh_request(&self) -> (r: FetchRequest)
        ensures
            r == (FetchRequest {
                start_index: self.window.start,
                stop_index: self.window.stop,
                token: self.generation,
            }),
    {
        FetchRequest {
            start_index: self.window.start,
            stop_index: self.window.stop,
            token: self.generation,
        }
    }

    /// Consume the one-shot snap-to-bottom flag, reporting whether the
    /// render that follows this content update should jump to the bottom.
    pub fn take_scroll_bottom(&mut self) -> (r: bool)
        ensures
            r == old(self).scroll_bottom_next,
            *final(self) == (FetchCoordinator { scroll_bottom_next: false, ..*old(self) }),
    {
        let r = self.scroll_bottom_next;
        self.scroll_bottom_next = false;
        r
    }
}

} // verus!
