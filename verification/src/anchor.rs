use vstd::prelude::*;

verus! {

/// The scroll offsets captured immediately before a content swap: the
/// viewport offset from the top, and the maximum offset at that moment
/// (rendered height minus viewport height).
#[derive(Clone, Copy, Debug, PartialEq, Eq, Structural)]
pub struct ScrollSnapshot {
    pub scroll_top: i32,
    pub scroll_extent: i32,
}

/// A scroll offset pushed into the valid range `[0, extent]` (or 0 when the
/// extent itself is negative).
pub open spec fn spec_clamp_offset(x: int, extent: int) -> int {
    let top = if extent < 0 {
        0
    } else {
        extent
    };
    if x < 0 {
        0
    } else if x > top {
        top
    } else {
        x
    }
}

/// Keeps the viewport visually steady when the rendered list is replaced.
///
/// Before a content swap the caller captures the current offsets; after the
/// swap has rendered, the caller asks once for the corrected offset.  When
/// older items were prepended above the viewport, the correction shifts the
/// offset by exactly the growth of the scroll range, so the same content
/// stays in view.
pub struct ScrollAnchor {
    pub snapshot: Option<ScrollSnapshot>,
}

impl ScrollAnchor {
    /// A fresh anchor with nothing captured.
    pub fn new() -> (a: ScrollAnchor)
        ensures
            a.snapshot is None,
    {
        ScrollAnchor { snapshot: None }
    }

    /// Capture the offsets as they stand, immediately before the content
    /// swap; a capture replaces any earlier one not yet consumed.
    pub fn capture(&mut self, scroll_top: i32, scroll_extent: i32)
        ensures
            final(self).snapshot == Some(ScrollSnapshot { scroll_top, scroll_extent }),
    {
        self.snapshot = Some(ScrollSnapshot { scroll_top, scroll_extent });
    }

    /// The offset to set after the swapped content has rendered, consuming
    /// the captured snapshot.
    ///
    /// With `snap_to_bottom` armed, or with nothing captured, the target is
    /// the maximum offset (the newest content).  Otherwise the captured
    /// offset is shifted by the growth of the scroll range,
    /// `scroll_top + (new_scroll_extent - captured_extent)`, clamped into
    /// the valid range.
    pub fn restore_target(&mut self, snap_to_bottom: bool, new_scroll_extent: i32) -> (r: i32)
        ensures
            final(self).snapshot is None,
            r == (match old(self).snapshot {
                Some(s) => if snap_to_bottom {
                    spec_clamp_offset(new_scroll_extent as int, new_scroll_extent as int)
                } else {
                    spec_clamp_offset(
                        s.scroll_top + (new_scroll_extent - s.scroll_extent),
                        new_scroll_extent as int,
                    )
                },
                None => spec_clamp_offset(new_scroll_extent as int, new_scroll_extent as int),
            }),
    {
        let snapshot = self.snapshot;
        self.snapshot = None;
        let extent = new_scroll_extent as i64;
        let top = if extent < 0 {
            0i64
        } else {
            extent
        };
        let wanted: i64 = match snapshot {
            Some(s) => if snap_to_bottom {
                top
            } else {
                (s.scroll_top as i64) + (extent - (s.scroll_extent as i64))
            },
            None => top,
        };
        let clamped = if wanted < 0 {
            0i64
        } else if wanted > top {
            top
        } else {
            wanted
        };
        clamped as i32
    }
}

} // verus!
