//! The per-panel scroll model: one position within a collection, moved
//! one step at a time or jumped to an extreme, always clamped to the
//! collection's bounds, and inert on an empty collection.

use vstd::prelude::*;

verus! {

/// A scroll request on one of the scrollable panels.
#[derive(Clone, Copy, PartialEq, Eq, Structural, Debug)]
pub enum ScrollDirection {
    Up,
    Down,
    Top,
    Bottom,
}

/// The position reached from `index` by one scroll request over a
/// collection of `len` items: `Up` and `Down` move one step and clamp at
/// the ends, `Top` and `Bottom` jump to them.  On an empty collection
/// every request leaves the position unchanged.
pub open spec fn scroll_spec(index: int, len: int, dir: ScrollDirection) -> int {
    if len <= 0 {
        index
    } else {
        match dir {
            ScrollDirection::Up => if index <= 0 { 0 } else { index - 1 },
            ScrollDirection::Down => if index + 1 < len { index + 1 } else { len - 1 },
            ScrollDirection::Top => 0,
            ScrollDirection::Bottom => len - 1,
        }
    }
}

/// Apply one scroll request to a panel position.
pub fn scroll_index(index: usize, len: usize, dir: ScrollDirection) -> (r: usize)
    ensures
        r as int == scroll_spec(index as int, len as int, dir),
{
    if len == 0 {
        index
    } else {
        match dir {
            ScrollDirection::Up => if index == 0 { 0 } else { index - 1 },
            ScrollDirection::Down => if index < len - 1 { index + 1 } else { len - 1 },
            ScrollDirection::Top => 0,
            ScrollDirection::Bottom => len - 1,
        }
    }
}

/// The position after a whole sequence of scroll requests, applied in
/// order.
pub open spec fn apply_scrolls(index: int, len: int, dirs: Seq<ScrollDirection>) -> int
    decreases dirs.len(),
{
    if dirs.len() == 0 {
        index
    } else {
        scroll_spec(apply_scrolls(index, len, dirs.drop_last()), len, dirs.last())
    }
}

/// Law of the scroll model on a nonempty collection: starting from any
/// valid position, any sequence of scroll requests ends at a valid
/// position, never outside `[0, len - 1]`.
pub proof fn lemma_scrolls_stay_in_range(index: int, len: int, dirs: Seq<ScrollDirection>)
    requires
        len > 0,
        0 <= index < len,
    ensures
        0 <= apply_scrolls(index, len, dirs) < len,
    decreases dirs.len(),
{
    if dirs.len() > 0 {
        lemma_scrolls_stay_in_range(index, len, dirs.drop_last());
    }
}

/// Law of the scroll model on an empty collection: every sequence of
/// scroll requests is a no-op.
pub proof fn lemma_scrolls_empty_noop(index: int, dirs: Seq<ScrollDirection>)
    ensures
        apply_scrolls(index, 0, dirs) == index,
    decreases dirs.len(),
{
    if dirs.len() > 0 {
        lemma_scrolls_empty_noop(index, dirs.drop_last());
    }
}

} // verus!
