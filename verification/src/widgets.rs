//! Geometry of tables and scrollbars, list navigation, and buttons.
//!
//! The functions here work on cells of the terminal grid: columns and rows
//! are `u16`, and a `Rect` is a block of cells. They decide which row a click
//! hits and where a scrollbar's thumb stands; nothing here draws.

use vstd::prelude::*;

pub use crate::selection::MultiSelectState;

verus! {

/// A block of cells: the corner with the least column and row, and the size.
#[derive(Debug, Clone, Copy, PartialEq, Eq, Structural)]
pub struct Rect {
    pub x: u16,
    pub y: u16,
    pub width: u16,
    pub height: u16,
}

/// `a + b`, or `u16::MAX` where the sum is greater.
pub open spec fn add_capped(a: u16, b: u16) -> u16 {
    if a + b > u16::MAX {
        u16::MAX
    } else {
        (a + b) as u16
    }
}

/// `a - b`, or zero where `b` is greater.
pub open spec fn sub_floored(a: int, b: int) -> int {
    if a < b {
        0
    } else {
        a - b
    }
}

/// The lesser of two numbers.
pub open spec fn least(a: int, b: int) -> int {
    if a <= b {
        a
    } else {
        b
    }
}

/// The greater of two numbers.
pub open spec fn greatest(a: int, b: int) -> int {
    if a >= b {
        a
    } else {
        b
    }
}

impl Rect {
    /// Whether the cell at `col`, `row` lies in the block. A block that
    /// would reach beyond the grid ends at its edge.
    pub open spec fn holds(self, col: u16, row: u16) -> bool {
        &&& self.x <= col < add_capped(self.x, self.width)
        &&& self.y <= row < add_capped(self.y, self.height)
    }

    /// The block within this one that leaves a margin of `horizontal` cells
    /// at the left and at the right and of `vertical` cells above and below;
    /// the empty block at the origin where the margins do not fit.
    pub open spec fn inner(self, horizontal: u16, vertical: u16) -> Rect {
        if self.width < least(2 * horizontal, u16::MAX as int) || self.height < least(
            2 * vertical,
            u16::MAX as int,
        ) {
            Rect { x: 0, y: 0, width: 0, height: 0 }
        } else {
            Rect {
                x: add_capped(self.x, horizontal),
                y: add_capped(self.y, vertical),
                width: (self.width - least(2 * horizontal, u16::MAX as int)) as u16,
                height: (self.height - least(2 * vertical, u16::MAX as int)) as u16,
            }
        }
    }
}

/// `ratatui::layout::Rect::inner` with the margin `ratatui::layout::Margin`:
/// the block shrunk by the margin on each side, or the empty block at the
/// origin where twice the margin exceeds the size.
#[verifier::external_body]
pub(crate) fn rect_inner(rect: Rect, horizontal: u16, vertical: u16) -> (r: Rect)
    ensures
        r == rect.inner(horizontal, vertical),
{
    let outer = ratatui::layout::Rect {
        x: rect.x,
        y: rect.y,
        width: rect.width,
        height: rect.height,
    };
    let inner = outer.inner(ratatui::layout::Margin { horizontal, vertical });
    Rect { x: inner.x, y: inner.y, width: inner.width, height: inner.height }
}

/// Whether the cell at `col`, `row` lies in `rect`.
pub fn contains(rect: Rect, col: u16, row: u16) -> (r: bool)
    ensures
        r == rect.holds(col, row),
{
    col >= rect.x && col < rect.x.saturating_add(rect.width) && row >= rect.y && row
        < rect.y.saturating_add(rect.height)
}

/// The row of a table that the cell at `col`, `row` belongs to.
///
/// The table is drawn in `table_outer` with a border of one cell; its first
/// `header_rows` rows are the header. The result counts from the first row
/// under the header; a cell outside the table's content or in the header
/// hits no row.
pub open spec fn table_row_at(table_outer: Rect, header_rows: u16, col: u16, row: u16) -> Option<
    usize,
> {
    let inner = table_outer.inner(1, 1);
    if inner.width > 0 && inner.height > 0 && inner.holds(col, row) && row - inner.y
        >= header_rows {
        Some((row - inner.y - header_rows) as usize)
    } else {
        None
    }
}

/// The row of the table in `table_outer` that the cell at `col`, `row`
/// belongs to; see `table_row_at`.
pub fn hit_test_table_row(table_outer: Rect, header_rows: u16, col: u16, row: u16) -> (r: Option<
    usize,
>)
    ensures
        r == table_row_at(table_outer, header_rows, col, row),
{
    let inner = rect_inner(table_outer, 1, 1);
    if inner.width == 0 || inner.height == 0 {
        return None;
    }
    if !contains(inner, col, row) {
        return None;
    }
    let rel_y: u16 = row - inner.y;
    if rel_y < header_rows {
        return None;
    }
    Some((rel_y - header_rows) as usize)
}

/// The index of the item that the cell at `col`, `row` shows, in a table
/// that is scrolled to `offset` and has `content_len` items.
pub open spec fn table_index_at(
    table_outer: Rect,
    header_rows: u16,
    col: u16,
    row: u16,
    offset: usize,
    content_len: usize,
) -> Option<usize> {
    match table_row_at(table_outer, header_rows, col, row) {
        Some(shown) => if offset + shown < content_len {
            Some((offset + shown) as usize)
        } else {
            None
        },
        None => None,
    }
}

/// The index of the item that the cell at `col`, `row` shows; see
/// `table_index_at`.
pub fn hit_test_table_index(
    table_outer: Rect,
    header_rows: u16,
    col: u16,
    row: u16,
    offset: usize,
    content_len: usize,
) -> (r: Option<usize>)
    ensures
        r == table_index_at(table_outer, header_rows, col, row, offset, content_len),
{
    let shown = match hit_test_table_row(table_outer, header_rows, col, row) {
        Some(shown) => shown,
        None => { return None; },
    };
    let idx = offset.saturating_add(shown);
    if idx < content_len {
        Some(idx)
    } else {
        None
    }
}

/// The index reached from `current` by `delta` steps in a list of `len`
/// items: the steps stop at the first and at the last item. Without a
/// current item the steps start at the first; an empty list has no index.
pub open spec fn index_after(current: Option<usize>, len: usize, delta: isize) -> Option<usize> {
    if len == 0 {
        None
    } else {
        let from = match current {
            Some(i) => least(i as int, len - 1),
            None => 0,
        };
        Some(greatest(0, least(from + delta, len - 1)) as usize)
    }
}

/// Moves through a list by `delta` items; see `index_after`.
pub fn nav_next_index(current: Option<usize>, len: usize, delta: isize) -> (r: Option<usize>)
    ensures
        r == index_after(current, len, delta),
{
    if len == 0 {
        return None;
    }
    let last: usize = len - 1;
    let from: usize = match current {
        Some(i) => if i < last {
            i
        } else {
            last
        },
        None => 0,
    };
    if delta >= 0 {
        let forward: usize = delta as usize;
        let room: usize = last - from;
        if forward < room {
            Some(from + forward)
        } else {
            Some(last)
        }
    } else {
        // `-delta` does not fit `isize` for the least `isize`.
        let back: usize = if delta == isize::MIN {
            (isize::MAX as usize) + 1
        } else {
            (-delta) as usize
        };
        if back < from {
            Some(from - back)
        } else {
            Some(0)
        }
    }
}

/// The number of items that a page key moves by: the rows of the viewport,
/// at least one, forward or back.
pub open spec fn page_delta(viewport_rows: usize, forward: bool) -> isize {
    let rows = least(greatest(viewport_rows as int, 1), isize::MAX as int);
    if forward {
        rows as isize
    } else {
        (-rows) as isize
    }
}

/// The step of a page key; see `page_delta`.
pub fn nav_page_delta(viewport_rows: usize, forward: bool) -> (r: isize)
    ensures
        r == page_delta(viewport_rows, forward),
{
    let rows: usize = if viewport_rows < 1 {
        1
    } else {
        viewport_rows
    };
    let d: isize = if rows > isize::MAX as usize {
        isize::MAX
    } else {
        rows as isize
    };
    if forward {
        d
    } else {
        -d
    }
}

/// Where the scrollbar of a table stands.
#[derive(Debug, Clone, Copy)]
pub struct ScrollbarMetrics {
    /// The rows of the table under its header.
    pub scrollbar_area: Rect,
    /// The column of cells that the scrollbar is drawn in.
    pub scrollbar_col: Rect,
    /// The number of cells of the track.
    pub track_rows: usize,
    /// The number of items shown at once.
    pub viewport_rows: usize,
    /// The greatest offset the table can scroll to.
    pub max_off: usize,
    /// The number of positions that the thumb can take, less one.
    pub denom: usize,
    /// The first cell of the thumb, counted from the top of the track.
    pub thumb_top: usize,
    /// The number of cells of the thumb.
    pub thumb_height: usize,
}

impl ScrollbarMetrics {
    /// The metrics are those of a scrollbar: the thumb has at least one cell
    /// and lies within the track, and there is something to scroll.
    pub open spec fn wf(self) -> bool {
        &&& 1 <= self.thumb_height <= self.track_rows
        &&& self.denom == self.track_rows - self.thumb_height
        &&& self.thumb_top <= self.denom
        &&& self.track_rows <= u16::MAX
        &&& self.viewport_rows >= 1
        &&& self.max_off >= 1
    }
}

/// `a * b`, or `usize::MAX` where the product is greater.
pub open spec fn mul_capped(a: usize, b: usize) -> int {
    if a * b > usize::MAX {
        usize::MAX as int
    } else {
        a * b
    }
}

/// The place that corresponds to `part` of `whole` on a scale of `scale`,
/// rounded down and at most `scale`; zero where a scale has no extent.
pub open spec fn scaled(part: usize, scale: usize, whole: usize) -> int {
    if whole == 0 || scale == 0 {
        0
    } else {
        least(mul_capped(part, scale) / (whole as int), scale as int)
    }
}

/// The scrollbar of a table drawn in `table_outer`, with `header_rows` rows
/// of header, `content_len` items, scrolled to `offset`; nothing where the
/// table has no room or shows all its items.
///
/// The track is the column at the right of the rows under the header. The
/// thumb takes the share of the track that the viewport takes of the
/// content, at least one cell, and stands where `offset` stands between zero
/// and the greatest offset.
pub open spec fn scrollbar_of(table_outer: Rect, header_rows: u16, content_len: usize, offset: usize) -> Option<
    ScrollbarMetrics,
> {
    let inner = table_outer.inner(1, 1);
    let below = sub_floored(inner.height as int, header_rows as int);
    let viewport = greatest(below, 1);
    if inner.height == 0 || content_len <= viewport {
        None
    } else {
        let area = Rect {
            x: inner.x,
            y: add_capped(inner.y, header_rows),
            width: inner.width,
            height: below as u16,
        };
        let track = viewport;
        let max_off = content_len - viewport;
        let thumb = least(greatest(viewport * viewport / (content_len as int), 1), track);
        let denom = track - thumb;
        Some(
            ScrollbarMetrics {
                scrollbar_area: area,
                scrollbar_col: Rect {
                    x: add_capped(area.x, sub_floored(area.width as int, 1) as u16),
                    y: area.y,
                    width: 1,
                    height: area.height,
                },
                track_rows: track as usize,
                viewport_rows: viewport as usize,
                max_off: max_off as usize,
                denom: denom as usize,
                thumb_top: scaled(
                    least(offset as int, max_off) as usize,
                    denom as usize,
                    max_off as usize,
                ) as usize,
                thumb_height: thumb as usize,
            },
        )
    }
}

/// `a * b`, capped at `usize::MAX`.
fn times_capped(a: usize, b: usize) -> (r: usize)
    ensures
        r == mul_capped(a, b),
{
    match a.checked_mul(b) {
        Some(product) => product,
        None => usize::MAX,
    }
}

/// See the spec function `scaled`.
fn place_on(part: usize, extent: usize, whole: usize) -> (r: usize)
    ensures
        r == scaled(part, extent, whole),
{
    if whole == 0 || extent == 0 {
        0
    } else {
        let place = times_capped(part, extent) / whole;
        if place < extent {
            place
        } else {
            extent
        }
    }
}

/// Computes the scrollbar of a table; see `scrollbar_of`.
pub fn compute_scrollbar_metrics(
    table_outer: Rect,
    header_rows: u16,
    content_len: usize,
    offset: usize,
) -> (r: Option<ScrollbarMetrics>)
    ensures
        r == scrollbar_of(table_outer, header_rows, content_len, offset),
        r matches Some(metrics) ==> metrics.wf(),
{
    let inner = rect_inner(table_outer, 1, 1);
    if inner.height == 0 {
        return None;
    }
    let below: u16 = inner.height.saturating_sub(header_rows);
    let viewport_rows: usize = if below < 1 {
        1
    } else {
        below as usize
    };
    if content_len <= viewport_rows {
        return None;
    }
    let scrollbar_area = Rect {
        x: inner.x,
        y: inner.y.saturating_add(header_rows),
        width: inner.width,
        height: below,
    };
    let track_rows: usize = viewport_rows;
    let max_off: usize = content_len - viewport_rows;
    let pos: usize = if offset < max_off {
        offset
    } else {
        max_off
    };
    assert(viewport_rows * viewport_rows <= 0xffff * 0xffff) by (nonlinear_arith)
        requires
            viewport_rows <= 0xffff,
    ;
    let square: u64 = (viewport_rows as u64) * (viewport_rows as u64);
    let share: u64 = square / (content_len as u64);
    let thumb_height: usize = if share < 1 {
        1
    } else if share > track_rows as u64 {
        track_rows
    } else {
        share as usize
    };
    let denom: usize = track_rows - thumb_height;
    let thumb_top: usize = place_on(pos, denom, max_off);
    let scrollbar_col = Rect {
        x: scrollbar_area.x.saturating_add(scrollbar_area.width.saturating_sub(1)),
        y: scrollbar_area.y,
        width: 1,
        height: scrollbar_area.height,
    };
    Some(
        ScrollbarMetrics {
            scrollbar_area,
            scrollbar_col,
            track_rows,
            viewport_rows,
            max_off,
            denom,
            thumb_top,
            thumb_height,
        },
    )
}

/// What pressing the mouse on the scrollbar does.
#[derive(Debug, Clone, Copy, PartialEq, Eq, Structural)]
pub enum ScrollbarDownResult {
    /// Nothing to do.
    Nothing,
    /// The thumb is grabbed, `grab` cells below its top.
    StartDrag { grab: usize },
    /// The table scrolls to `offset`.
    JumpTo { offset: usize },
}

/// The offset that puts the top of the thumb at the cell `thumb_top` of the
/// track, or as near as the track allows.
pub open spec fn offset_at(metrics: ScrollbarMetrics, thumb_top: int) -> int {
    scaled(least(thumb_top, metrics.denom as int) as usize, metrics.max_off, metrics.denom)
}

/// What pressing the mouse at `mouse_row` does: on the thumb it grabs the
/// thumb; elsewhere it scrolls so that the middle of the thumb comes under
/// the mouse. Rows are counted from the top of the scrollbar.
pub open spec fn scrollbar_down(metrics: ScrollbarMetrics, mouse_row: u16) -> ScrollbarDownResult {
    let rel = sub_floored(mouse_row as int, metrics.scrollbar_area.y as int);
    if metrics.thumb_top <= rel < least(
        metrics.thumb_top + metrics.thumb_height,
        usize::MAX as int,
    ) {
        ScrollbarDownResult::StartDrag { grab: (rel - metrics.thumb_top) as usize }
    } else {
        ScrollbarDownResult::JumpTo {
            offset: offset_at(metrics, sub_floored(rel, metrics.thumb_height as int / 2)) as usize,
        }
    }
}

/// Decides what pressing the mouse on the scrollbar does; see
/// `scrollbar_down`.
pub fn handle_scrollbar_down(metrics: ScrollbarMetrics, mouse_row: u16) -> (r: ScrollbarDownResult)
    ensures
        r == scrollbar_down(metrics, mouse_row),
{
    let rel: usize = mouse_row.saturating_sub(metrics.scrollbar_area.y) as usize;
    if rel >= metrics.thumb_top && rel < metrics.thumb_top.saturating_add(metrics.thumb_height) {
        return ScrollbarDownResult::StartDrag { grab: rel - metrics.thumb_top };
    }
    let wanted: usize = rel.saturating_sub(metrics.thumb_height / 2);
    let thumb_top: usize = if wanted < metrics.denom {
        wanted
    } else {
        metrics.denom
    };
    ScrollbarDownResult::JumpTo { offset: place_on(thumb_top, metrics.max_off, metrics.denom) }
}

/// The offset that a drag to `mouse_row` scrolls to, with the thumb grabbed
/// `grab` cells below its top: the mouse is taken to the nearest row of the
/// scrollbar, and the thumb follows it.
pub open spec fn scrollbar_drag(metrics: ScrollbarMetrics, grab: usize, mouse_row: u16) -> int {
    let top = metrics.scrollbar_area.y;
    let bottom = add_capped(top, sub_floored(metrics.scrollbar_area.height as int, 1) as u16);
    let row = greatest(top as int, least(mouse_row as int, bottom as int));
    offset_at(metrics, sub_floored(row - top, grab as int))
}

/// The offset that a drag of the thumb scrolls to; see `scrollbar_drag`.
pub fn handle_scrollbar_drag(metrics: ScrollbarMetrics, grab: usize, mouse_row: u16) -> (r: usize)
    ensures
        r == scrollbar_drag(metrics, grab, mouse_row),
{
    let top: u16 = metrics.scrollbar_area.y;
    let bottom: u16 = top.saturating_add(metrics.scrollbar_area.height.saturating_sub(1));
    let row: u16 = if mouse_row < top {
        top
    } else if mouse_row > bottom {
        bottom
    } else {
        mouse_row
    };
    let rel: usize = (row - top) as usize;
    let wanted: usize = rel.saturating_sub(grab);
    let thumb_top: usize = if wanted < metrics.denom {
        wanted
    } else {
        metrics.denom
    };
    place_on(thumb_top, metrics.max_off, metrics.denom)
}

/// A button: its label, and whether it can be pressed.
#[derive(Debug, Clone)]
pub struct Button {
    pub label: String,
    pub enabled: bool,
}

impl Button {
    /// An enabled button with the given label.
    pub fn new(label: &str) -> (r: Self)
        ensures
            r.label@ == label@,
            r.enabled,
    {
        Button { label: label.to_owned(), enabled: true }
    }
}

} // verus!
