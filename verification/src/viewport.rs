//! The viewport: which part of the document the terminal shows.
//!
//! The offset is the document position shown in the top left cell. After
//! every cursor movement it is moved by the least amount that brings the
//! cursor back into the window.

use crate::editor::{Position, Size};
use vstd::prelude::*;

verus! {

/// The offset along one axis after scrolling: the cursor itself where it
/// lies before the window, the offset that puts the cursor in the last cell
/// where it lies behind the window, and the old offset where it is inside.
/// The sums stop at the largest index.
pub open spec fn scrolled(offset: usize, cursor: usize, extent: usize) -> usize {
    if cursor < offset {
        cursor
    } else if cursor >= offset.saturating_add(extent) {
        cursor.saturating_sub(extent).saturating_add(1)
    } else {
        offset
    }
}

/// Whether the cursor is inside the window along one axis.
pub open spec fn in_window(offset: usize, cursor: usize, extent: usize) -> bool {
    offset <= cursor < offset + extent
}

fn scroll_axis(offset: usize, cursor: usize, extent: usize) -> (scrolled_to: usize)
    ensures
        scrolled_to == scrolled(offset, cursor, extent),
{
    if cursor < offset {
        cursor
    } else if cursor >= offset.saturating_add(extent) {
        cursor.saturating_sub(extent).saturating_add(1)
    } else {
        offset
    }
}

/// The offset at which a terminal of the given size shows the cursor, moved
/// as little as possible from `offset`.
pub fn scroll(offset: &Position, cursor: &Position, terminal: &Size) -> (scrolled_to: Position)
    ensures
        scrolled_to.x == scrolled(offset.x, cursor.x, terminal.width as usize),
        scrolled_to.y == scrolled(offset.y, cursor.y, terminal.height as usize),
        terminal.width > 0 ==> in_window(scrolled_to.x, cursor.x, terminal.width as usize),
        terminal.height > 0 ==> in_window(scrolled_to.y, cursor.y, terminal.height as usize),
{
    Position {
        x: scroll_axis(offset.x, cursor.x, terminal.width as usize),
        y: scroll_axis(offset.y, cursor.y, terminal.height as usize),
    }
}

/// In a window that has at least one cell, scrolling from any offset puts
/// the cursor inside the window, and scrolling again changes nothing: the
/// window is reached in one step and kept from then on.
pub proof fn scroll_settles(offset: usize, cursor: usize, extent: usize)
    requires
        extent > 0,
    ensures
        in_window(scrolled(offset, cursor, extent), cursor, extent),
        scrolled(scrolled(offset, cursor, extent), cursor, extent) == scrolled(
            offset,
            cursor,
            extent,
        ),
{
}

/// Where the cursor is inside the window already, and the window does not
/// reach past the largest index, scrolling leaves the offset as it is.
pub proof fn scroll_keeps_window(offset: usize, cursor: usize, extent: usize)
    requires
        in_window(offset, cursor, extent),
        offset + extent <= usize::MAX,
    ensures
        scrolled(offset, cursor, extent) == offset,
{
}

} // verus!
