use std::cmp::Ordering;
use std::ops::Range;
use vstd::prelude::*;

verus! {

/// The number of rows that one story takes.
pub const STORY_HEIGHT: usize = 2;

/// Where the rows of `inner` lie with respect to the window `outer`: `Less`
/// when they begin above it, else `Greater` when they end below it, else
/// `Equal`.
pub open spec fn placement(outer: Range<usize>, inner: Range<usize>) -> Ordering {
    if inner.start < outer.start {
        Ordering::Less
    } else if inner.end > outer.end {
        Ordering::Greater
    } else {
        Ordering::Equal
    }
}

/// Compares the rows of `inner` with the window `outer`.
pub fn encompass(outer: &Range<usize>, inner: &Range<usize>) -> (order: Option<Ordering>)
    ensures
        order == Some(placement(*outer, *inner)),
{
    if inner.start < outer.start {
        Some(Ordering::Less)
    } else if inner.end > outer.end {
        Some(Ordering::Greater)
    } else {
        Some(Ordering::Equal)
    }
}

/// The first row of the window `outer`, of `height` rows, once it has moved
/// to show the rows of `inner`: their first row where they begin above the
/// window, the row that makes their last row the window's last where they
/// end below it, and the window's own first row where it shows them.
pub open spec fn window_top(outer: Range<usize>, inner: Range<usize>, height: usize) -> int {
    match placement(outer, inner) {
        Ordering::Less => inner.start + 0,
        Ordering::Greater => inner.end - height,
        Ordering::Equal => outer.start + 0,
    }
}

/// Moves the window `outer`, of `height` rows, to show the rows of `inner`,
/// and gives its first row.
pub fn scroll_into_view(outer: &Range<usize>, inner: &Range<usize>, height: usize) -> (top: usize)
    requires
        inner.end >= height || inner.end <= outer.end || inner.start < outer.start,
    ensures
        top == window_top(*outer, *inner, height),
{
    match encompass(outer, inner) {
        Some(Ordering::Less) => inner.start,
        Some(Ordering::Greater) => inner.end - height,
        _ => outer.start,
    }
}

/// The first row of a window of `height` rows that shows the story
/// `selected`, reached from a window that began at `row_offset`: the window
/// moves up to the story's first row, or down until its last row is the
/// window's last, or stays.
pub open spec fn reconciled_offset(selected: int, row_offset: int, height: int) -> int {
    if 2 * selected < row_offset {
        2 * selected
    } else if 2 * selected + 2 > row_offset + height {
        2 * selected + 2 - height
    } else {
        row_offset
    }
}

/// Whether both rows of the story `selected` lie in the window of `height`
/// rows that begins at `row_offset`.
pub open spec fn story_visible(selected: int, row_offset: int, height: int) -> bool {
    row_offset <= 2 * selected && 2 * selected + 2 <= row_offset + height
}

/// Scrolling into view shows the selection: wherever the window was, and
/// whichever story is selected, in a window of two rows or more both rows of
/// the selected story are visible afterwards.
pub proof fn lemma_reconcile_shows_selection(selected: int, row_offset: int, height: int)
    requires
        0 <= selected,
        0 <= row_offset,
        height >= 2,
    ensures
        story_visible(selected, reconciled_offset(selected, row_offset, height), height),
        reconciled_offset(selected, row_offset, height) >= 0,
{
}

/// Scrolling into view leaves a window alone that shows the selection, so
/// doing it twice is doing it once.
pub proof fn lemma_reconcile_settles(selected: int, row_offset: int, height: int)
    requires
        height >= 2,
    ensures
        story_visible(selected, row_offset, height) ==> reconciled_offset(
            selected,
            row_offset,
            height,
        ) == row_offset,
        reconciled_offset(selected, reconciled_offset(selected, row_offset, height), height)
            == reconciled_offset(selected, row_offset, height),
{
}

/// The column offset after a horizontal step of `delta` columns from `col`:
/// it stops at the left edge, and at the largest offset `limit` that fits in
/// a machine word.
pub open spec fn scrolled(col: int, delta: int, limit: int) -> int {
    if col + delta < 0 {
        0
    } else if col + delta > limit {
        limit
    } else {
        col + delta
    }
}

/// A step to one side and the same step back end where they began, as long
/// as the first step stays below the limit; and no step leads left of the
/// first column.
pub proof fn lemma_scroll_there_and_back(col: int, step: int, limit: int)
    requires
        0 <= col,
        0 <= step,
        col + step <= limit,
    ensures
        scrolled(scrolled(col, step, limit), -step, limit) == col,
        scrolled(0, -step, limit) == 0,
        scrolled(col, -step, limit) >= 0,
{
}

} // verus!
