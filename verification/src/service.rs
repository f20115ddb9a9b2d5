use vstd::prelude::*;

use crate::coordinator::{FetchRequest, FetchResponse};
use crate::policy::umin;
use crate::window::RangeWindow;

verus! {

/// How many of the newest items a message-list fetch covers when the client
/// supplied no range of its own.
pub const DEFAULT_FETCH_SPAN: usize = 40;

/// Why a range fetch was refused.
#[derive(Clone, Copy, Debug, PartialEq, Eq, Structural)]
pub enum FetchError {
    /// The request's indices were inverted (`start_index > stop_index`).
    InvalidRange,
    /// No collection is selected to fetch from; surfaced to the caller
    /// rather than answered with a silently empty window.
    NoSelection,
}

/// The range a fetch covers: the requested one, or, when the client asked
/// for nothing in particular, the newest `default_span` items.
pub fn resolve_range(
    requested: Option<(usize, usize)>,
    total_len: usize,
    default_span: usize,
) -> (r: (usize, usize))
    ensures
        r == (match requested {
            Some(q) => q,
            None => (total_len.saturating_sub(default_span), total_len),
        }),
{
    match requested {
        Some(q) => q,
        None => (total_len.saturating_sub(default_span), total_len),
    }
}

/// Answer a range fetch from the selected collection.
///
/// The requested endpoints are clamped into `[0, total_len]` and the items
/// of the clamped half-open range come back in order, together with the
/// collection's total length and the request's token.  The collection may
/// have changed since the client computed the range, so clamping, not
/// failure, is the answer to an out-of-date range; only inverted indices are
/// refused.
pub fn load_range<T: Clone>(collection: &Vec<T>, req: &FetchRequest) -> (r: Result<
    FetchResponse<T>,
    FetchError,
>)
    ensures
        r is Ok <==> req.start_index <= req.stop_index,
        r is Err ==> r == Err::<FetchResponse<T>, FetchError>(FetchError::InvalidRange),
        r matches Ok(resp) ==> {
            &&& resp.token == req.token
            &&& resp.total_len == collection@.len()
            &&& resp.range.start == umin(req.start_index, collection.len())
            &&& resp.range.stop == umin(req.stop_index, collection.len())
            &&& resp.spec_consistent()
            &&& forall|i: int|
                0 <= i < resp.items@.len() ==> cloned::<T>(
                    collection@[resp.range.start + i],
                    #[trigger] resp.items@[i],
                )
        },
{
    if req.start_index > req.stop_index {
        return Err(FetchError::InvalidRange);
    }
    let total_len = collection.len();
    let start = if req.start_index <= total_len {
        req.start_index
    } else {
        total_len
    };
    let stop = if req.stop_index <= total_len {
        req.stop_index
    } else {
        total_len
    };
    let mut items: Vec<T> = Vec::new();
    let mut i = start;
    while i < stop
        invariant
            start <= i <= stop <= total_len,
            total_len == collection@.len(),
            items@.len() == i - start,
            forall|j: int|
                0 <= j < items@.len() ==> cloned::<T>(
                    collection@[start + j],
                    #[trigger] items@[j],
                ),
        decreases stop - i,
    {
        items.push(collection[i].clone());
        i = i + 1;
    }
    Ok(
        FetchResponse {
            range: RangeWindow { start, stop },
            total_len,
            items,
            token: req.token,
        },
    )
}

/// The shape of one entry of a fetched message window, as the grouping rule
/// sees it: a day marker, or a message with the contact it came from.
#[derive(Clone, Copy, Debug, PartialEq, Eq, Structural)]
pub enum ItemKind {
    DayMarker,
    Message { from_id: u32 },
}

/// Whether entry `i` opens a visual group: the first entry of the window,
/// any day marker, any entry right after a day marker, and any message whose
/// sender differs from the message right before it.
pub open spec fn spec_group_start(entries: Seq<ItemKind>, i: int) -> bool {
    ||| i == 0
    ||| entries[i] is DayMarker
    ||| entries[i - 1] is DayMarker
    ||| entries[i - 1]->Message_from_id != entries[i]->Message_from_id
}

/// For each entry of a fetched message window, whether it opens a visual
/// group (shows its sender header): exactly the entries of
/// [`spec_group_start`].
pub fn mark_group_starts(entries: &Vec<ItemKind>) -> (r: Vec<bool>)
    ensures
        r@.len() == entries@.len(),
        forall|i: int| 0 <= i < entries@.len() ==> r@[i] == spec_group_start(entries@, i),
{
    let mut r: Vec<bool> = Vec::new();
    let mut i: usize = 0;
    while i < entries.len()
        invariant
            i <= entries@.len(),
            r@.len() == i,
            forall|j: int| 0 <= j < i ==> r@[j] == spec_group_start(entries@, j),
        decreases entries@.len() - i,
    {
        let start = if i == 0 {
            true
        } else {
            match (entries[i - 1], entries[i]) {
                (ItemKind::DayMarker, _) => true,
                (_, ItemKind::DayMarker) => true,
                (ItemKind::Message { from_id: prev }, ItemKind::Message { from_id: here }) => prev
                    != here,
            }
        };
        r.push(start);
        i = i + 1;
    }
    r
}

/// Answer a range fetch when a collection may or may not be selected: with
/// no selection the fetch fails with [`FetchError::NoSelection`]; otherwise
/// it is answered exactly as [`load_range`] answers it.
pub fn load_range_selected<T: Clone>(selection: Option<&Vec<T>>, req: &FetchRequest) -> (r: Result<
    FetchResponse<T>,
    FetchError,
>)
    ensures
        selection is None ==> r == Err::<FetchResponse<T>, FetchError>(FetchError::NoSelection),
        selection matches Some(collection) ==> {
            &&& r is Ok <==> req.start_index <= req.stop_index
            &&& r is Err ==> r == Err::<FetchResponse<T>, FetchError>(FetchError::InvalidRange)
            &&& r matches Ok(resp) ==> {
                &&& resp.token == req.token
                &&& resp.total_len == collection@.len()
                &&& resp.range.start == umin(req.start_index, collection.len())
                &&& resp.range.stop == umin(req.stop_index, collection.len())
                &&& resp.spec_consistent()
                &&& forall|i: int|
                    0 <= i < resp.items@.len() ==> cloned::<T>(
                        collection@[resp.range.start + i],
                        #[trigger] resp.items@[i],
                    )
            }
        },
{
    match selection {
        Some(collection) => load_range(collection, req),
        None => Err(FetchError::NoSelection),
    }
}

} // verus!
